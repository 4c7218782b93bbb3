use vstd::prelude::*;

use crate::server::error::ServerError;
use crate::supervisor::candidate_manager::ProposalHostProcessBlockedV1;

verus! {

/// The publication whose native build a Candidate workflow dispatches, by content identity.
#[derive(Clone, Copy, Debug, PartialEq, Eq, Structural)]
pub enum CandidateNativePublicationV1 {
    Revision(u64),
    NativeFollowup(u64),
    NativeRepair(u64),
}

/// The typed diagnostic recorded after a native build failed on its subject.
#[derive(Clone, Copy, Debug, PartialEq, Eq, Structural)]
pub enum CandidateNativeDiagnosticV1 {
    NativeFollowup(u64),
    NativeRepair(u64),
}

/// Every identity the scheduler needs for one native-build dispatch, fixed before scheduling.
#[derive(Clone, Copy, Debug, PartialEq, Eq, Structural)]
pub struct CandidateNativeBuildScheduleV1 {
    pub attempt_id: u64,
    pub placement_id: u64,
    pub reservation_id: u64,
    pub assignment_id: u64,
    pub lease_id: u64,
    pub offer_message_id: u64,
    pub start_message_id: u64,
    pub authorize_attempt_command: u64,
    pub reserve_placement_command: u64,
    pub grant_assignment_command: u64,
    pub enqueue_offer_command: u64,
}

/// The command identities of one scheduling pass.
#[derive(Clone, Copy, Debug, PartialEq, Eq, Structural)]
pub struct ControllerScheduleCommandIdsV1 {
    pub authorize_attempt: u64,
    pub reserve_placement: u64,
    pub grant_assignment: u64,
    pub enqueue_offer: u64,
}

/// The identities handed to the Controller scheduler.
#[derive(Clone, Copy, Debug, PartialEq, Eq, Structural)]
pub struct ControllerScheduleIdsV1 {
    pub attempt_id: u64,
    pub placement_id: u64,
    pub reservation_id: u64,
    pub assignment_id: u64,
    pub lease_id: u64,
    pub offer_message_id: u64,
    pub start_message_id: u64,
    pub commands: ControllerScheduleCommandIdsV1,
}

/// The scheduler identities of a dispatch: each one is the dispatch's own, field for field.
pub fn controller_schedule_ids(ids: CandidateNativeBuildScheduleV1) -> (r: ControllerScheduleIdsV1)
    ensures
        r == (ControllerScheduleIdsV1 {
            attempt_id: ids.attempt_id,
            placement_id: ids.placement_id,
            reservation_id: ids.reservation_id,
            assignment_id: ids.assignment_id,
            lease_id: ids.lease_id,
            offer_message_id: ids.offer_message_id,
            start_message_id: ids.start_message_id,
            commands: ControllerScheduleCommandIdsV1 {
                authorize_attempt: ids.authorize_attempt_command,
                reserve_placement: ids.reserve_placement_command,
                grant_assignment: ids.grant_assignment_command,
                enqueue_offer: ids.enqueue_offer_command,
            },
        }),
{
    ControllerScheduleIdsV1 {
        attempt_id: ids.attempt_id,
        placement_id: ids.placement_id,
        reservation_id: ids.reservation_id,
        assignment_id: ids.assignment_id,
        lease_id: ids.lease_id,
        offer_message_id: ids.offer_message_id,
        start_message_id: ids.start_message_id,
        commands: ControllerScheduleCommandIdsV1 {
            authorize_attempt: ids.authorize_attempt_command,
            reserve_placement: ids.reserve_placement_command,
            grant_assignment: ids.grant_assignment_command,
            enqueue_offer: ids.enqueue_offer_command,
        },
    }
}

/// One durable native-build dispatch: the publication, its job, the archived material it binds,
/// and the scheduler identities.
#[derive(Clone, Copy, Debug, PartialEq, Eq, Structural)]
pub struct CandidateNativeBuildDispatchV1 {
    pub publication: CandidateNativePublicationV1,
    pub job_id: u64,
    pub input_bundle: u64,
    pub environment: u64,
    pub contract: u64,
    pub schedule: CandidateNativeBuildScheduleV1,
}

/// Where a scheduled worker assignment stands.
#[derive(Clone, Copy, Debug, PartialEq, Eq, Structural)]
pub enum ScheduledAssignmentPhase {
    OfferPending,
    Accepted,
    Running,
    ExpiredBeforeStart,
    ReconciliationRequired,
    Terminal,
}

/// An expected wait in which the manager has no new authority and polls durable state.
#[derive(Clone, Copy, Debug, PartialEq, Eq, Structural)]
pub enum CandidateWorkflowWaitingV1 {
    Worker { attempt_id: u64, assignment_id: u64, phase: ScheduledAssignmentPhase },
}

/// A recoverable state that needs policy or operator reconciliation before any new authority.
#[derive(Clone, Copy, Debug, PartialEq, Eq, Structural)]
pub enum CandidateWorkflowBlockedV1 {
    NoCandidate { placement_id: u64 },
    ExpiredBeforeStart { attempt_id: u64 },
    NativeBuildReconciliationRequired { attempt_id: u64 },
    ExecutionNotStarted { attempt_id: u64 },
    ExecutionAmbiguous { attempt_id: u64 },
    ProposalHost { episode_id: u64, reason: ProposalHostProcessBlockedV1 },
}

/// The result of consuming at most one action of the durable Candidate workflow.
#[derive(Clone, Copy, Debug, PartialEq, Eq, Structural)]
pub enum CandidateWorkflowManagerStatusV1 {
    Advanced,
    Waiting(CandidateWorkflowWaitingV1),
    Blocked(CandidateWorkflowBlockedV1),
    /// The workflow reached its terminal record, named by identity.
    Terminal(u64),
}

/// What the manager's loop does after one turn.
#[derive(Clone, Copy, Debug, PartialEq, Eq, Structural)]
pub enum ManagerLoopStepV1 {
    /// Take the next turn at once.
    Continue,
    /// Poll again after the configured interval.
    Sleep,
    /// Return this status to the caller.
    Stop,
}

/// The loop continues after progress, sleeps while waiting, and stops on anything else.
pub open spec fn loop_step(status: CandidateWorkflowManagerStatusV1) -> ManagerLoopStepV1 {
    match status {
        CandidateWorkflowManagerStatusV1::Advanced => ManagerLoopStepV1::Continue,
        CandidateWorkflowManagerStatusV1::Waiting(_) => ManagerLoopStepV1::Sleep,
        _ => ManagerLoopStepV1::Stop,
    }
}

/// Decides what the manager's loop does after a turn that reported `status`.
pub fn manager_loop_step(status: &CandidateWorkflowManagerStatusV1) -> (r: ManagerLoopStepV1)
    ensures
        r == loop_step(*status),
{
    match status {
        CandidateWorkflowManagerStatusV1::Advanced => ManagerLoopStepV1::Continue,
        CandidateWorkflowManagerStatusV1::Waiting(_) => ManagerLoopStepV1::Sleep,
        _ => ManagerLoopStepV1::Stop,
    }
}

/// What the scheduler reports for a dispatch.
#[derive(Clone, Copy, Debug, PartialEq, Eq, Structural)]
pub enum ControllerSchedulingOutcomeV1 {
    NoCandidate { placement_id: u64 },
    Scheduled { phase: ScheduledAssignmentPhase },
}

/// The manager's step after scheduling a dispatch.
#[derive(Clone, Copy, Debug, PartialEq, Eq, Structural)]
pub enum ScheduleStepV1 {
    /// Nothing to perform; report this status.
    Report(CandidateWorkflowManagerStatusV1),
    /// Record that the native build needs reconciliation.
    RequireReconciliation,
    /// The assignment is terminal: reconcile the execution it produced.
    Reconcile,
}

/// The step owed for a scheduling outcome: no worker blocks, a live assignment is waited on, an
/// assignment that expired before it started blocks, and the other two are followed up.
pub open spec fn schedule_step(
    schedule: CandidateNativeBuildScheduleV1,
    outcome: ControllerSchedulingOutcomeV1,
) -> ScheduleStepV1 {
    match outcome {
        ControllerSchedulingOutcomeV1::NoCandidate { placement_id } => ScheduleStepV1::Report(
            CandidateWorkflowManagerStatusV1::Blocked(CandidateWorkflowBlockedV1::NoCandidate { placement_id }),
        ),
        ControllerSchedulingOutcomeV1::Scheduled { phase } => match phase {
            ScheduledAssignmentPhase::OfferPending
            | ScheduledAssignmentPhase::Accepted
            | ScheduledAssignmentPhase::Running => ScheduleStepV1::Report(
                CandidateWorkflowManagerStatusV1::Waiting(
                    CandidateWorkflowWaitingV1::Worker {
                        attempt_id: schedule.attempt_id,
                        assignment_id: schedule.assignment_id,
                        phase,
                    },
                ),
            ),
            ScheduledAssignmentPhase::ExpiredBeforeStart => ScheduleStepV1::Report(
                CandidateWorkflowManagerStatusV1::Blocked(
                    CandidateWorkflowBlockedV1::ExpiredBeforeStart { attempt_id: schedule.attempt_id },
                ),
            ),
            ScheduledAssignmentPhase::ReconciliationRequired => ScheduleStepV1::RequireReconciliation,
            ScheduledAssignmentPhase::Terminal => ScheduleStepV1::Reconcile,
        },
    }
}

/// Decides the manager's step after the scheduler reported `outcome` for a dispatch.
pub fn plan_schedule_step(dispatch: &CandidateNativeBuildDispatchV1, outcome: ControllerSchedulingOutcomeV1) -> (r:
    ScheduleStepV1)
    ensures
        r == schedule_step(dispatch.schedule, outcome),
{
    match outcome {
        ControllerSchedulingOutcomeV1::NoCandidate { placement_id } => ScheduleStepV1::Report(
            CandidateWorkflowManagerStatusV1::Blocked(CandidateWorkflowBlockedV1::NoCandidate { placement_id }),
        ),
        ControllerSchedulingOutcomeV1::Scheduled { phase } => match phase {
            ScheduledAssignmentPhase::OfferPending
            | ScheduledAssignmentPhase::Accepted
            | ScheduledAssignmentPhase::Running => ScheduleStepV1::Report(
                CandidateWorkflowManagerStatusV1::Waiting(
                    CandidateWorkflowWaitingV1::Worker {
                        attempt_id: dispatch.schedule.attempt_id,
                        assignment_id: dispatch.schedule.assignment_id,
                        phase,
                    },
                ),
            ),
            ScheduledAssignmentPhase::ExpiredBeforeStart => ScheduleStepV1::Report(
                CandidateWorkflowManagerStatusV1::Blocked(
                    CandidateWorkflowBlockedV1::ExpiredBeforeStart { attempt_id: dispatch.schedule.attempt_id },
                ),
            ),
            ScheduledAssignmentPhase::ReconciliationRequired => ScheduleStepV1::RequireReconciliation,
            ScheduledAssignmentPhase::Terminal => ScheduleStepV1::Reconcile,
        },
    }
}

/// How a terminal worker execution ended.
#[derive(Clone, Copy, Debug, PartialEq, Eq, Structural)]
pub enum AssignmentExecutionTerminalV1 {
    Completed { receipt_id: u64 },
    NotStarted,
    Ambiguous,
}

/// The durable state of the execution assignment behind a dispatch.
#[derive(Clone, Copy, Debug, PartialEq, Eq, Structural)]
pub enum ExecutionAssignmentStateV1 {
    Leased,
    Accepted,
    Running,
    ExpiredBeforeStart,
    ReconciliationRequired,
    ExecutionTerminal(AssignmentExecutionTerminalV1),
    NotFound,
}

/// The manager's step after reconciling a dispatch's execution.
#[derive(Clone, Copy, Debug, PartialEq, Eq, Structural)]
pub enum ReconcileStepV1 {
    /// Nothing to perform; report this status.
    Report(CandidateWorkflowManagerStatusV1),
    /// Fold the completed execution's receipt into the workflow.
    FoldReceipt { receipt_id: u64 },
}

/// The step owed for an execution state: live assignments are waited on in their phase, the
/// stuck ones block, a completed execution is folded, and a missing assignment has no step.
pub open spec fn reconcile_step(
    schedule: CandidateNativeBuildScheduleV1,
    state: ExecutionAssignmentStateV1,
) -> Option<ReconcileStepV1> {
    let attempt_id = schedule.attempt_id;
    let waiting = |phase: ScheduledAssignmentPhase|
        Some(
            ReconcileStepV1::Report(
                CandidateWorkflowManagerStatusV1::Waiting(
                    CandidateWorkflowWaitingV1::Worker { attempt_id, assignment_id: schedule.assignment_id, phase },
                ),
            ),
        );
    let blocked = |b: CandidateWorkflowBlockedV1|
        Some(ReconcileStepV1::Report(CandidateWorkflowManagerStatusV1::Blocked(b)));
    match state {
        ExecutionAssignmentStateV1::Leased => waiting(ScheduledAssignmentPhase::OfferPending),
        ExecutionAssignmentStateV1::Accepted => waiting(ScheduledAssignmentPhase::Accepted),
        ExecutionAssignmentStateV1::Running => waiting(ScheduledAssignmentPhase::Running),
        ExecutionAssignmentStateV1::ExpiredBeforeStart => blocked(
            CandidateWorkflowBlockedV1::ExpiredBeforeStart { attempt_id },
        ),
        ExecutionAssignmentStateV1::ReconciliationRequired => blocked(
            CandidateWorkflowBlockedV1::NativeBuildReconciliationRequired { attempt_id },
        ),
        ExecutionAssignmentStateV1::ExecutionTerminal(terminal) => match terminal {
            AssignmentExecutionTerminalV1::Completed { receipt_id } => Some(ReconcileStepV1::FoldReceipt { receipt_id }),
            AssignmentExecutionTerminalV1::NotStarted => blocked(
                CandidateWorkflowBlockedV1::ExecutionNotStarted { attempt_id },
            ),
            AssignmentExecutionTerminalV1::Ambiguous => blocked(
                CandidateWorkflowBlockedV1::ExecutionAmbiguous { attempt_id },
            ),
        },
        ExecutionAssignmentStateV1::NotFound => None,
    }
}

/// Decides the manager's step for the recovered execution of a dispatch; a dispatch that names
/// no durable assignment is a workflow failure.
pub fn plan_reconcile_step(dispatch: &CandidateNativeBuildDispatchV1, state: ExecutionAssignmentStateV1) -> (r: Result<
    ReconcileStepV1,
    ServerError,
>)
    ensures
        match reconcile_step(dispatch.schedule, state) {
            Some(step) => r == Ok::<ReconcileStepV1, ServerError>(step),
            None => r matches Err(ServerError::MigrationWorkflow(m))
                && m@ == "Candidate workflow dispatch names no durable execution assignment"@,
        },
{
    let attempt_id = dispatch.schedule.attempt_id;
    let assignment_id = dispatch.schedule.assignment_id;
    match state {
        ExecutionAssignmentStateV1::Leased => Ok(ReconcileStepV1::Report(
            CandidateWorkflowManagerStatusV1::Waiting(
                CandidateWorkflowWaitingV1::Worker { attempt_id, assignment_id, phase: ScheduledAssignmentPhase::OfferPending },
            ),
        )),
        ExecutionAssignmentStateV1::Accepted => Ok(ReconcileStepV1::Report(
            CandidateWorkflowManagerStatusV1::Waiting(
                CandidateWorkflowWaitingV1::Worker { attempt_id, assignment_id, phase: ScheduledAssignmentPhase::Accepted },
            ),
        )),
        ExecutionAssignmentStateV1::Running => Ok(ReconcileStepV1::Report(
            CandidateWorkflowManagerStatusV1::Waiting(
                CandidateWorkflowWaitingV1::Worker { attempt_id, assignment_id, phase: ScheduledAssignmentPhase::Running },
            ),
        )),
        ExecutionAssignmentStateV1::ExpiredBeforeStart => Ok(ReconcileStepV1::Report(
            CandidateWorkflowManagerStatusV1::Blocked(CandidateWorkflowBlockedV1::ExpiredBeforeStart { attempt_id }),
        )),
        ExecutionAssignmentStateV1::ReconciliationRequired => Ok(ReconcileStepV1::Report(
            CandidateWorkflowManagerStatusV1::Blocked(
                CandidateWorkflowBlockedV1::NativeBuildReconciliationRequired { attempt_id },
            ),
        )),
        ExecutionAssignmentStateV1::ExecutionTerminal(terminal) => match terminal {
            AssignmentExecutionTerminalV1::Completed { receipt_id } => Ok(ReconcileStepV1::FoldReceipt { receipt_id }),
            AssignmentExecutionTerminalV1::NotStarted => Ok(ReconcileStepV1::Report(
                CandidateWorkflowManagerStatusV1::Blocked(CandidateWorkflowBlockedV1::ExecutionNotStarted { attempt_id }),
            )),
            AssignmentExecutionTerminalV1::Ambiguous => Ok(ReconcileStepV1::Report(
                CandidateWorkflowManagerStatusV1::Blocked(CandidateWorkflowBlockedV1::ExecutionAmbiguous { attempt_id }),
            )),
        },
        ExecutionAssignmentStateV1::NotFound => Err(
            ServerError::MigrationWorkflow("Candidate workflow dispatch names no durable execution assignment".to_owned()),
        ),
    }
}

/// The diagnostic domain of a native build that failed on its subject.
#[derive(Clone, Copy, Debug, PartialEq, Eq, Structural)]
pub enum NativeDiagnosticDomainV1 {
    /// A first revision's failure is diagnosed for a native follow-up.
    NativeFollowup,
    /// A follow-up's or repair's failure is diagnosed for a native repair.
    NativeRepair,
}

/// The manager's step for a completed execution's receipt.
#[derive(Clone, Copy, Debug, PartialEq, Eq, Structural)]
pub enum ReceiptFoldV1 {
    /// Prepare a diagnostic in this domain and record the subject failure.
    RecordSubjectFailure { domain: NativeDiagnosticDomainV1 },
    /// Record the native build's terminal receipt.
    RecordTerminal,
}

/// The diagnostic domain that follows a failed build of a publication.
pub open spec fn diagnostic_domain(publication: CandidateNativePublicationV1) -> NativeDiagnosticDomainV1 {
    match publication {
        CandidateNativePublicationV1::Revision(_) => NativeDiagnosticDomainV1::NativeFollowup,
        _ => NativeDiagnosticDomainV1::NativeRepair,
    }
}

/// Decides how a completed execution folds into the workflow. A subject failure needs the
/// recovered workflow to still hold the native-build dispatch (`dispatch_active`: the state is a
/// requested or reconciliation-required native build); any other outcome records the terminal.
pub fn plan_receipt_fold(
    subject_failed: bool,
    dispatch_active: bool,
    dispatch: &CandidateNativeBuildDispatchV1,
) -> (r: Result<ReceiptFoldV1, ServerError>)
    ensures
        !subject_failed ==> r == Ok::<ReceiptFoldV1, ServerError>(ReceiptFoldV1::RecordTerminal),
        subject_failed && dispatch_active ==> r == Ok::<ReceiptFoldV1, ServerError>(
            ReceiptFoldV1::RecordSubjectFailure { domain: diagnostic_domain(dispatch.publication) },
        ),
        subject_failed && !dispatch_active ==> (r matches Err(ServerError::MigrationWorkflow(m))
            && m@ == "native-build receipt is not bound to an active workflow dispatch"@),
{
    if !subject_failed {
        return Ok(ReceiptFoldV1::RecordTerminal);
    }
    if !dispatch_active {
        return Err(
            ServerError::MigrationWorkflow("native-build receipt is not bound to an active workflow dispatch".to_owned()),
        );
    }
    let domain = match dispatch.publication {
        CandidateNativePublicationV1::Revision(_) => NativeDiagnosticDomainV1::NativeFollowup,
        CandidateNativePublicationV1::NativeFollowup(_) => NativeDiagnosticDomainV1::NativeRepair,
        CandidateNativePublicationV1::NativeRepair(_) => NativeDiagnosticDomainV1::NativeRepair,
    };
    Ok(ReceiptFoldV1::RecordSubjectFailure { domain })
}

/// The typed diagnostic recorded for a prepared diagnostic identity in its domain.
pub fn native_diagnostic(domain: NativeDiagnosticDomainV1, prepared: u64) -> (r: CandidateNativeDiagnosticV1)
    ensures
        r == (match domain {
            NativeDiagnosticDomainV1::NativeFollowup => CandidateNativeDiagnosticV1::NativeFollowup(prepared),
            NativeDiagnosticDomainV1::NativeRepair => CandidateNativeDiagnosticV1::NativeRepair(prepared),
        }),
{
    match domain {
        NativeDiagnosticDomainV1::NativeFollowup => CandidateNativeDiagnosticV1::NativeFollowup(prepared),
        NativeDiagnosticDomainV1::NativeRepair => CandidateNativeDiagnosticV1::NativeRepair(prepared),
    }
}

/// The archived material a prepared native build binds.
#[derive(Clone, Copy, Debug, PartialEq, Eq, Structural)]
pub struct NativeBuildBindingV1 {
    pub input_bundle: u64,
    pub environment: u64,
    pub contract: u64,
}

/// Whether a prepared build binds exactly the material its dispatch committed.
pub open spec fn binds_dispatch(binding: NativeBuildBindingV1, dispatch: CandidateNativeBuildDispatchV1) -> bool {
    binding.input_bundle == dispatch.input_bundle && binding.environment == dispatch.environment
        && binding.contract == dispatch.contract
}

/// Checks that a build prepared again from the receipt's publication binds the dispatch's
/// material.
pub fn check_rematerialized_binding(binding: NativeBuildBindingV1, dispatch: &CandidateNativeBuildDispatchV1) -> (r:
    Result<(), ServerError>)
    ensures
        binds_dispatch(binding, *dispatch) ==> r is Ok,
        !binds_dispatch(binding, *dispatch) ==> (r matches Err(ServerError::MigrationWorkflow(m))
            && m@ == "native-build receipt material changed the durable workflow dispatch"@),
{
    if binding.input_bundle == dispatch.input_bundle && binding.environment == dispatch.environment
        && binding.contract == dispatch.contract {
        Ok(())
    } else {
        Err(ServerError::MigrationWorkflow("native-build receipt material changed the durable workflow dispatch".to_owned()))
    }
}

/// Checks the archived job contract before scheduling: its bytes must be canonical and it must
/// name the dispatch's job, input bundle and environment.
pub fn check_contract_binding(
    canonical: bool,
    job_id: u64,
    input_bundle: u64,
    environment: u64,
    dispatch: &CandidateNativeBuildDispatchV1,
) -> (r: Result<(), ServerError>)
    ensures
        (canonical && job_id == dispatch.job_id && input_bundle == dispatch.input_bundle
            && environment == dispatch.environment) ==> r is Ok,
        !(canonical && job_id == dispatch.job_id && input_bundle == dispatch.input_bundle
            && environment == dispatch.environment) ==> (r matches Err(ServerError::MigrationWorkflow(m))
            && m@ == "native-build dispatch changed its archived contract binding"@),
{
    if canonical && job_id == dispatch.job_id && input_bundle == dispatch.input_bundle
        && environment == dispatch.environment {
        Ok(())
    } else {
        Err(ServerError::MigrationWorkflow("native-build dispatch changed its archived contract binding".to_owned()))
    }
}

/// Checks that the content store archived a native-build contract under its prepared identity.
pub fn check_archived_contract(actual: u64, expected: u64) -> (r: Result<(), ServerError>)
    ensures
        actual == expected ==> r is Ok,
        actual != expected ==> (r matches Err(ServerError::MigrationWorkflow(m))
            && m@ == "native-build contract identity changed during archival"@),
{
    if actual == expected {
        Ok(())
    } else {
        Err(ServerError::MigrationWorkflow("native-build contract identity changed during archival".to_owned()))
    }
}

/// Checks that the content store archived a Proposal Host runtime under its own identity.
pub fn check_archived_invocation(actual: u64, expected: u64) -> (r: Result<(), ServerError>)
    ensures
        actual == expected ==> r is Ok,
        actual != expected ==> (r matches Err(ServerError::MigrationWorkflow(m))
            && m@ == "Proposal Host invocation identity changed during archival"@),
{
    if actual == expected {
        Ok(())
    } else {
        Err(ServerError::MigrationWorkflow("Proposal Host invocation identity changed during archival".to_owned()))
    }
}

/// The kind of a Candidate episode requested by the workflow.
#[derive(Clone, Copy, Debug, PartialEq, Eq, Structural)]
pub enum CandidateEpisodeKindV1 {
    NativeFollowup,
    NativeRepair,
    /// Any kind that carries no native-build parent and diagnostic.
    Other,
}

/// The parent a native repair continues from.
#[derive(Clone, Copy, Debug, PartialEq, Eq, Structural)]
pub enum RepairParentV1 {
    /// The follow-up revision is itself the root of the repair chain.
    Followup(u64),
    /// An earlier repair, whose recorded root follow-up is the chain's root.
    Repair(u64),
}

/// The role-specific material a Candidate episode request loads, by identity.
#[derive(Clone, Copy, Debug, PartialEq, Eq, Structural)]
pub enum CandidateEpisodeRoleV1 {
    NativeFollowup { previous_revision: u64, diagnostic: u64 },
    NativeRepair { parent: RepairParentV1, diagnostic: u64 },
}

/// The role an episode request takes, or the refusal of a request whose parent and diagnostic
/// are not in its kind's domains.
pub open spec fn episode_role(
    kind: CandidateEpisodeKindV1,
    parent: CandidateNativePublicationV1,
    diagnostic: CandidateNativeDiagnosticV1,
) -> Result<CandidateEpisodeRoleV1, Seq<char>> {
    match (kind, parent, diagnostic) {
        (
            CandidateEpisodeKindV1::NativeFollowup,
            CandidateNativePublicationV1::Revision(previous_revision),
            CandidateNativeDiagnosticV1::NativeFollowup(diagnostic),
        ) => Ok(CandidateEpisodeRoleV1::NativeFollowup { previous_revision, diagnostic }),
        (CandidateEpisodeKindV1::NativeRepair, parent, CandidateNativeDiagnosticV1::NativeRepair(diagnostic)) => match parent {
            CandidateNativePublicationV1::NativeFollowup(id) => Ok(
                CandidateEpisodeRoleV1::NativeRepair { parent: RepairParentV1::Followup(id), diagnostic },
            ),
            CandidateNativePublicationV1::NativeRepair(id) => Ok(
                CandidateEpisodeRoleV1::NativeRepair { parent: RepairParentV1::Repair(id), diagnostic },
            ),
            CandidateNativePublicationV1::Revision(_) => Err("native repair request has a non-native parent"@),
        },
        _ => Err("Candidate workflow request changed role-specific artifact domains"@),
    }
}

/// Plans the role material of a workflow-emitted Candidate episode request: the archived runtime
/// must carry the request's episode, then the kind, parent and diagnostic select the role.
pub fn plan_candidate_episode_role(
    request_episode: u64,
    runtime_episode: u64,
    kind: CandidateEpisodeKindV1,
    parent: CandidateNativePublicationV1,
    diagnostic: CandidateNativeDiagnosticV1,
) -> (r: Result<CandidateEpisodeRoleV1, ServerError>)
    ensures
        request_episode != runtime_episode ==> (r matches Err(ServerError::MigrationWorkflow(m))
            && m@ == "Proposal Host runtime changed the workflow episode identity"@),
        request_episode == runtime_episode ==> match episode_role(kind, parent, diagnostic) {
            Ok(role) => r == Ok::<CandidateEpisodeRoleV1, ServerError>(role),
            Err(message) => r matches Err(ServerError::MigrationWorkflow(m)) && m@ == message,
        },
{
    if request_episode != runtime_episode {
        return Err(ServerError::MigrationWorkflow("Proposal Host runtime changed the workflow episode identity".to_owned()));
    }
    match (kind, parent, diagnostic) {
        (
            CandidateEpisodeKindV1::NativeFollowup,
            CandidateNativePublicationV1::Revision(previous_revision),
            CandidateNativeDiagnosticV1::NativeFollowup(diagnostic),
        ) => Ok(CandidateEpisodeRoleV1::NativeFollowup { previous_revision, diagnostic }),
        (CandidateEpisodeKindV1::NativeRepair, parent, CandidateNativeDiagnosticV1::NativeRepair(diagnostic)) => match parent {
            CandidateNativePublicationV1::NativeFollowup(id) => Ok(
                CandidateEpisodeRoleV1::NativeRepair { parent: RepairParentV1::Followup(id), diagnostic },
            ),
            CandidateNativePublicationV1::NativeRepair(id) => Ok(
                CandidateEpisodeRoleV1::NativeRepair { parent: RepairParentV1::Repair(id), diagnostic },
            ),
            CandidateNativePublicationV1::Revision(_) => Err(
                ServerError::MigrationWorkflow("native repair request has a non-native parent".to_owned()),
            ),
        },
        _ => Err(ServerError::MigrationWorkflow("Candidate workflow request changed role-specific artifact domains".to_owned())),
    }
}

/// A workflow-emitted request for one Candidate episode, by identity.
#[derive(Clone, Copy, Debug, PartialEq, Eq, Structural)]
pub struct CandidateEpisodeRequestV1 {
    pub episode_id: u64,
    pub invocation: u64,
    pub kind: CandidateEpisodeKindV1,
    pub parent: CandidateNativePublicationV1,
    pub diagnostic: CandidateNativeDiagnosticV1,
}

/// The action the durable Candidate workflow selects from its recovered state.
#[derive(Clone, Copy, Debug, PartialEq, Eq, Structural)]
pub enum CandidateWorkflowNextActionV1 {
    NoAction,
    PrepareNativeBuild { publication: CandidateNativePublicationV1, image: u64, profile: u64 },
    ScheduleNativeBuild(CandidateNativeBuildDispatchV1),
    ReconcileNativeBuild(CandidateNativeBuildDispatchV1),
    PrepareCandidateEpisode,
    RequestCandidateEpisode(CandidateEpisodeRequestV1),
    Terminal(u64),
}

/// One Candidate manager turn: the effect to perform, or the status to report.
#[derive(Clone, Copy, Debug, PartialEq, Eq, Structural)]
pub enum CandidateTurnV1 {
    /// Materialize the build and commit its dispatch under fresh scheduler identities.
    PrepareNativeBuild { publication: CandidateNativePublicationV1, image: u64, profile: u64 },
    /// Schedule exactly the committed dispatch.
    ScheduleNativeBuild(CandidateNativeBuildDispatchV1),
    /// Reconcile the execution of the committed dispatch.
    ReconcileNativeBuild(CandidateNativeBuildDispatchV1),
    /// Archive a fresh runtime and request the episode.
    PrepareCandidateEpisode,
    /// Run the Proposal Host on the requested episode.
    RunCandidateEpisode(CandidateEpisodeRequestV1),
    /// Nothing to perform; report this status.
    Report(CandidateWorkflowManagerStatusV1),
}

/// The turn owed for a workflow action; a workflow with no action does not exist.
pub open spec fn candidate_turn(action: CandidateWorkflowNextActionV1) -> Option<CandidateTurnV1> {
    match action {
        CandidateWorkflowNextActionV1::NoAction => None,
        CandidateWorkflowNextActionV1::PrepareNativeBuild { publication, image, profile } =>
            Some(CandidateTurnV1::PrepareNativeBuild { publication, image, profile }),
        CandidateWorkflowNextActionV1::ScheduleNativeBuild(d) => Some(CandidateTurnV1::ScheduleNativeBuild(d)),
        CandidateWorkflowNextActionV1::ReconcileNativeBuild(d) => Some(CandidateTurnV1::ReconcileNativeBuild(d)),
        CandidateWorkflowNextActionV1::PrepareCandidateEpisode => Some(CandidateTurnV1::PrepareCandidateEpisode),
        CandidateWorkflowNextActionV1::RequestCandidateEpisode(request) =>
            Some(CandidateTurnV1::RunCandidateEpisode(request)),
        CandidateWorkflowNextActionV1::Terminal(t) =>
            Some(CandidateTurnV1::Report(CandidateWorkflowManagerStatusV1::Terminal(t))),
    }
}

/// Plans one Candidate manager turn from the workflow's selected action.
pub fn plan_candidate_turn(action: CandidateWorkflowNextActionV1) -> (r: Result<CandidateTurnV1, ServerError>)
    ensures
        match candidate_turn(action) {
            Some(turn) => r == Ok::<CandidateTurnV1, ServerError>(turn),
            None => (r matches Err(ServerError::MigrationWorkflow(m))
                && m@ == "configured Candidate workflow does not exist"@),
        },
{
    match action {
        CandidateWorkflowNextActionV1::NoAction => Err(
            ServerError::MigrationWorkflow("configured Candidate workflow does not exist".to_owned()),
        ),
        CandidateWorkflowNextActionV1::PrepareNativeBuild { publication, image, profile } =>
            Ok(CandidateTurnV1::PrepareNativeBuild { publication, image, profile }),
        CandidateWorkflowNextActionV1::ScheduleNativeBuild(d) => Ok(CandidateTurnV1::ScheduleNativeBuild(d)),
        CandidateWorkflowNextActionV1::ReconcileNativeBuild(d) => Ok(CandidateTurnV1::ReconcileNativeBuild(d)),
        CandidateWorkflowNextActionV1::PrepareCandidateEpisode => Ok(CandidateTurnV1::PrepareCandidateEpisode),
        CandidateWorkflowNextActionV1::RequestCandidateEpisode(request) => Ok(CandidateTurnV1::RunCandidateEpisode(request)),
        CandidateWorkflowNextActionV1::Terminal(t) => Ok(CandidateTurnV1::Report(CandidateWorkflowManagerStatusV1::Terminal(t))),
    }
}

/// The manager's step after a Proposal Host run of a Candidate episode.
#[derive(Clone, Copy, Debug, PartialEq, Eq, Structural)]
pub enum EpisodeStepV1 {
    /// Record the Host's terminal into the workflow.
    RecordTerminal,
    /// Report the blocked episode; no replacement episode is started.
    Report(CandidateWorkflowManagerStatusV1),
}

/// Decides the step after a Host run: a terminal is recorded, and a blocked run blocks the
/// workflow on that episode with the run's reason.
pub fn plan_episode_step(episode_id: u64, run: Result<(), ProposalHostProcessBlockedV1>) -> (r: EpisodeStepV1)
    ensures
        r == (match run {
            Ok(()) => EpisodeStepV1::RecordTerminal,
            Err(reason) => EpisodeStepV1::Report(
                CandidateWorkflowManagerStatusV1::Blocked(CandidateWorkflowBlockedV1::ProposalHost { episode_id, reason }),
            ),
        }),
{
    match run {
        Ok(()) => EpisodeStepV1::RecordTerminal,
        Err(reason) => EpisodeStepV1::Report(
            CandidateWorkflowManagerStatusV1::Blocked(CandidateWorkflowBlockedV1::ProposalHost { episode_id, reason }),
        ),
    }
}

/// The status one manager turn reports when the workflow's action is to schedule `dispatch` and
/// the scheduler finds no worker for the placement the dispatch names, or `None` when that turn
/// would perform an effect instead of reporting.
pub open spec fn no_candidate_turn(dispatch: CandidateNativeBuildDispatchV1) -> Option<CandidateWorkflowManagerStatusV1> {
    match candidate_turn(CandidateWorkflowNextActionV1::ScheduleNativeBuild(dispatch)) {
        Some(CandidateTurnV1::ScheduleNativeBuild(d)) => match schedule_step(
            d.schedule,
            ControllerSchedulingOutcomeV1::NoCandidate { placement_id: d.schedule.placement_id },
        ) {
            ScheduleStepV1::Report(status) => Some(status),
            _ => None,
        },
        _ => None,
    }
}

/// The statuses of `n` consecutive manager turns on that workflow. A reported status records
/// nothing, so the durable state, and with it the action and its dispatch, is the same at the
/// next turn.
pub open spec fn no_candidate_turns(dispatch: CandidateNativeBuildDispatchV1, n: nat) -> Seq<
    Option<CandidateWorkflowManagerStatusV1>,
>
    decreases n,
{
    if n == 0 {
        Seq::empty()
    } else {
        no_candidate_turns(dispatch, (n - 1) as nat).push(no_candidate_turn(dispatch))
    }
}

/// A dispatch that finds no worker stays blocked on its own placement on every repetition: each
/// turn only reports, and every report is the same block.
pub proof fn lemma_blocked_dispatch_stays_blocked(dispatch: CandidateNativeBuildDispatchV1, n: nat)
    ensures
        no_candidate_turns(dispatch, n).len() == n,
        forall|i: int|
            0 <= i < n ==> #[trigger] no_candidate_turns(dispatch, n)[i] == Some(
                CandidateWorkflowManagerStatusV1::Blocked(
                    CandidateWorkflowBlockedV1::NoCandidate { placement_id: dispatch.schedule.placement_id },
                ),
            ),
    decreases n,
{
    if n > 0 {
        lemma_blocked_dispatch_stays_blocked(dispatch, (n - 1) as nat);
        let prev = no_candidate_turns(dispatch, (n - 1) as nat);
        assert forall|i: int| 0 <= i < n implies #[trigger] no_candidate_turns(dispatch, n)[i] == Some(
            CandidateWorkflowManagerStatusV1::Blocked(
                CandidateWorkflowBlockedV1::NoCandidate { placement_id: dispatch.schedule.placement_id },
            ),
        ) by {
            if i < n - 1 {
                assert(no_candidate_turns(dispatch, n)[i] == prev[i]);
            }
        }
    }
}

/// Only a live assignment is waited on: reconciling reports the dispatch's worker as waiting
/// exactly when its assignment is leased, accepted or running, in that phase and under the
/// dispatch's own attempt and assignment. An assignment that expired before it started blocks
/// on the dispatch's attempt, and only a completed execution is folded.
pub proof fn lemma_only_live_assignments_are_waited_on(
    schedule: CandidateNativeBuildScheduleV1,
    state: ExecutionAssignmentStateV1,
)
    ensures
        (reconcile_step(schedule, state) matches Some(ReconcileStepV1::Report(
            CandidateWorkflowManagerStatusV1::Waiting(_),
        ))) <==> (state is Leased || state is Accepted || state is Running),
        reconcile_step(schedule, state) matches Some(ReconcileStepV1::Report(
            CandidateWorkflowManagerStatusV1::Waiting(CandidateWorkflowWaitingV1::Worker { attempt_id, assignment_id, phase }),
        )) ==> attempt_id == schedule.attempt_id && assignment_id == schedule.assignment_id
            && (state is Leased ==> phase == ScheduledAssignmentPhase::OfferPending)
            && (state is Accepted ==> phase == ScheduledAssignmentPhase::Accepted)
            && (state is Running ==> phase == ScheduledAssignmentPhase::Running),
        state is ExpiredBeforeStart ==> reconcile_step(schedule, state) == Some(ReconcileStepV1::Report(
            CandidateWorkflowManagerStatusV1::Blocked(
                CandidateWorkflowBlockedV1::ExpiredBeforeStart { attempt_id: schedule.attempt_id },
            ),
        )),
        forall|receipt_id: u64| #![auto] (reconcile_step(schedule, state) == Some(ReconcileStepV1::FoldReceipt { receipt_id }))
            <==> state == ExecutionAssignmentStateV1::ExecutionTerminal(AssignmentExecutionTerminalV1::Completed { receipt_id }),
        reconcile_step(schedule, state) is None <==> state is NotFound,
        (reconcile_step(schedule, state) matches Some(ReconcileStepV1::Report(CandidateWorkflowManagerStatusV1::Blocked(_))))
            <==> (state is ExpiredBeforeStart || state is ReconciliationRequired
            || state == ExecutionAssignmentStateV1::ExecutionTerminal(AssignmentExecutionTerminalV1::NotStarted)
            || state == ExecutionAssignmentStateV1::ExecutionTerminal(AssignmentExecutionTerminalV1::Ambiguous)),
        state is ReconciliationRequired ==> reconcile_step(schedule, state) == Some(ReconcileStepV1::Report(
            CandidateWorkflowManagerStatusV1::Blocked(
                CandidateWorkflowBlockedV1::NativeBuildReconciliationRequired { attempt_id: schedule.attempt_id },
            ),
        )),
{
}

} // verus!
