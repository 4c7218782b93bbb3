//! The local product API's view of Controller tasks: phases, attention, error classes, and the
//! background supervisor's per-task decision.

use vstd::prelude::*;

use vstd::string::StringSliceAdditionalSpecFns;
use vstd::utf8::encode_utf8;

use crate::controller::decide::find_prior_command;
use crate::controller::events::ControllerWorkflowEventV1;
use crate::controller::recover::{RecordedControllerEventV1, prior_command};
use crate::controller::state::ControllerWorkflowStateV1;
use crate::server::error::ServerError;

verus! {

/// Product-facing lifecycle phase of one task.
#[derive(Clone, Copy, Debug, PartialEq, Eq, Structural)]
pub enum TaskPhaseV1 {
    RecoveringIntent,
    AwaitingIntentReview,
    AdmittingIntent,
    Blocked,
    PreparingOracle,
    ExploringOracle,
    AwaitingOracleControls,
    RunningOracleControls,
    OracleAccepted,
    OraclePartial,
    OracleRejected,
    Cancelled,
}

/// What a task needs from outside the Controller before it can continue.
#[derive(Clone, Copy, Debug, PartialEq, Eq, Structural)]
pub enum TaskAttentionV1 {
    IntentReview,
    IntentAdmissionReconciliation,
    OracleWorkspace,
    OracleMechanisms,
}

/// The admission status of one Oracle claim.
#[derive(Clone, Copy, Debug, PartialEq, Eq, Structural)]
pub enum OracleClaimAdmissionStatusV1 {
    Admitted,
    Partial,
    Rejected,
}

/// The phase of a recovered task, or the recorded body the phase depends on.
#[derive(Clone, Copy, Debug, PartialEq, Eq, Structural)]
pub enum PhaseResolutionV1 {
    Resolved { phase: TaskPhaseV1, attention: Option<TaskAttentionV1> },
    /// The phase depends on whether this recorded user decision keeps the intent unknown.
    FromDecision { decision: u64 },
    /// The phase depends on the claim statuses of this recorded Oracle admission outcome.
    FromOracleOutcome { outcome: u64 },
}

/// The phase and attention of a task in each durable Controller state.
pub open spec fn phase_of(state: ControllerWorkflowStateV1) -> Option<PhaseResolutionV1> {
    let resolved = |phase: TaskPhaseV1, attention: Option<TaskAttentionV1>| Some(PhaseResolutionV1::Resolved { phase, attention });
    match state {
        ControllerWorkflowStateV1::NotFound => None,
        ControllerWorkflowStateV1::Cancelled => resolved(TaskPhaseV1::Cancelled, None),
        ControllerWorkflowStateV1::Frozen(_) | ControllerWorkflowStateV1::SirEpisodeAuthorized(_) =>
            resolved(TaskPhaseV1::RecoveringIntent, None),
        ControllerWorkflowStateV1::SirProposed { .. } | ControllerWorkflowStateV1::AwaitingUserIntentDecision { .. } =>
            resolved(TaskPhaseV1::AwaitingIntentReview, Some(TaskAttentionV1::IntentReview)),
        ControllerWorkflowStateV1::UserIntentDecisionRecorded { decision, .. } =>
            Some(PhaseResolutionV1::FromDecision { decision }),
        ControllerWorkflowStateV1::IntentAdmissionAuthorized { .. } => resolved(TaskPhaseV1::AdmittingIntent, None),
        ControllerWorkflowStateV1::IntentAdmissionBlocked { .. } =>
            resolved(TaskPhaseV1::Blocked, Some(TaskAttentionV1::IntentAdmissionReconciliation)),
        ControllerWorkflowStateV1::AdmittedIntent { .. } =>
            resolved(TaskPhaseV1::PreparingOracle, Some(TaskAttentionV1::OracleWorkspace)),
        ControllerWorkflowStateV1::OracleExplorationOpened(_) | ControllerWorkflowStateV1::OracleStrategyAuthorized(_) =>
            resolved(TaskPhaseV1::ExploringOracle, None),
        ControllerWorkflowStateV1::OraclePortfolioFrozen(_) =>
            resolved(TaskPhaseV1::AwaitingOracleControls, Some(TaskAttentionV1::OracleMechanisms)),
        ControllerWorkflowStateV1::OracleAdmissionAuthorized(_)
        | ControllerWorkflowStateV1::OracleControlAuthorized { .. }
        | ControllerWorkflowStateV1::OracleControlsObserved { .. } => resolved(TaskPhaseV1::RunningOracleControls, None),
        ControllerWorkflowStateV1::OracleAdmitted { outcome, .. } => Some(PhaseResolutionV1::FromOracleOutcome { outcome }),
        _ => resolved(TaskPhaseV1::Blocked, None),
    }
}

/// The phase of a recovered task; an unrecorded task is not found.
pub fn phase_for_state(state: &ControllerWorkflowStateV1) -> (r: Result<PhaseResolutionV1, ServerError>)
    ensures
        match phase_of(*state) {
            Some(p) => r == Ok::<PhaseResolutionV1, ServerError>(p),
            None => r matches Err(ServerError::RegistryEntryNotFound(m)) && m@ == "task"@,
        },
{
    let resolved = |phase: TaskPhaseV1, attention: Option<TaskAttentionV1>| -> (p: Result<PhaseResolutionV1, ServerError>)
        ensures
            p == Ok::<PhaseResolutionV1, ServerError>(PhaseResolutionV1::Resolved { phase, attention }),
        { Ok(PhaseResolutionV1::Resolved { phase, attention }) };
    match state {
        ControllerWorkflowStateV1::NotFound => Err(ServerError::RegistryEntryNotFound("task".to_owned())),
        ControllerWorkflowStateV1::Cancelled => resolved(TaskPhaseV1::Cancelled, None),
        ControllerWorkflowStateV1::Frozen(_) | ControllerWorkflowStateV1::SirEpisodeAuthorized(_) =>
            resolved(TaskPhaseV1::RecoveringIntent, None),
        ControllerWorkflowStateV1::SirProposed { .. } | ControllerWorkflowStateV1::AwaitingUserIntentDecision { .. } =>
            resolved(TaskPhaseV1::AwaitingIntentReview, Some(TaskAttentionV1::IntentReview)),
        ControllerWorkflowStateV1::UserIntentDecisionRecorded { decision, .. } =>
            Ok(PhaseResolutionV1::FromDecision { decision: *decision }),
        ControllerWorkflowStateV1::IntentAdmissionAuthorized { .. } => resolved(TaskPhaseV1::AdmittingIntent, None),
        ControllerWorkflowStateV1::IntentAdmissionBlocked { .. } =>
            resolved(TaskPhaseV1::Blocked, Some(TaskAttentionV1::IntentAdmissionReconciliation)),
        ControllerWorkflowStateV1::AdmittedIntent { .. } =>
            resolved(TaskPhaseV1::PreparingOracle, Some(TaskAttentionV1::OracleWorkspace)),
        ControllerWorkflowStateV1::OracleExplorationOpened(_) | ControllerWorkflowStateV1::OracleStrategyAuthorized(_) =>
            resolved(TaskPhaseV1::ExploringOracle, None),
        ControllerWorkflowStateV1::OraclePortfolioFrozen(_) =>
            resolved(TaskPhaseV1::AwaitingOracleControls, Some(TaskAttentionV1::OracleMechanisms)),
        ControllerWorkflowStateV1::OracleAdmissionAuthorized(_)
        | ControllerWorkflowStateV1::OracleControlAuthorized { .. }
        | ControllerWorkflowStateV1::OracleControlsObserved { .. } => resolved(TaskPhaseV1::RunningOracleControls, None),
        ControllerWorkflowStateV1::OracleAdmitted { outcome, .. } => Ok(PhaseResolutionV1::FromOracleOutcome { outcome: *outcome }),
        _ => resolved(TaskPhaseV1::Blocked, None),
    }
}

/// The phase of a task whose user decision is recorded: keeping the intent unknown blocks it.
pub fn decision_phase(keeps_intent_unknown: bool) -> (r: TaskPhaseV1)
    ensures
        r == (if keeps_intent_unknown { TaskPhaseV1::Blocked } else { TaskPhaseV1::AdmittingIntent }),
{
    if keeps_intent_unknown {
        TaskPhaseV1::Blocked
    } else {
        TaskPhaseV1::AdmittingIntent
    }
}

/// The phase of an Oracle-admitted task: rejected when any claim is rejected, otherwise partial
/// when any claim is partial, otherwise accepted.
pub open spec fn oracle_phase(statuses: Seq<OracleClaimAdmissionStatusV1>) -> TaskPhaseV1 {
    if statuses.contains(OracleClaimAdmissionStatusV1::Rejected) {
        TaskPhaseV1::OracleRejected
    } else if statuses.contains(OracleClaimAdmissionStatusV1::Partial) {
        TaskPhaseV1::OraclePartial
    } else {
        TaskPhaseV1::OracleAccepted
    }
}

/// Every claim counts, wherever it stands: one rejected claim rejects the task; otherwise one
/// partial claim makes it partial; only a task whose claims are all admitted is accepted. The
/// phase therefore does not depend on the order of the claims.
pub proof fn lemma_every_claim_decides_the_oracle_phase(
    statuses: Seq<OracleClaimAdmissionStatusV1>,
    front: Seq<OracleClaimAdmissionStatusV1>,
    back: Seq<OracleClaimAdmissionStatusV1>,
)
    ensures
        (exists|i: int| 0 <= i < statuses.len() && statuses[i] == OracleClaimAdmissionStatusV1::Rejected)
            ==> oracle_phase(statuses) == TaskPhaseV1::OracleRejected,
        !(exists|i: int| 0 <= i < statuses.len() && statuses[i] == OracleClaimAdmissionStatusV1::Rejected)
            && (exists|i: int| 0 <= i < statuses.len() && statuses[i] == OracleClaimAdmissionStatusV1::Partial)
            ==> oracle_phase(statuses) == TaskPhaseV1::OraclePartial,
        (forall|i: int| 0 <= i < statuses.len() ==> statuses[i] == OracleClaimAdmissionStatusV1::Admitted)
            ==> oracle_phase(statuses) == TaskPhaseV1::OracleAccepted,
        oracle_phase(front + back) == oracle_phase(back + front),
{
    let fb = front + back;
    let bf = back + front;
    assert forall|x: OracleClaimAdmissionStatusV1| fb.contains(x) <==> bf.contains(x) by {
        if fb.contains(x) {
            let i = choose|i: int| 0 <= i < fb.len() && fb[i] == x;
            if i < front.len() {
                assert(bf[back.len() + i] == x);
            } else {
                assert(bf[i - front.len()] == x);
            }
        }
        if bf.contains(x) {
            let i = choose|i: int| 0 <= i < bf.len() && bf[i] == x;
            if i < back.len() {
                assert(fb[front.len() + i] == x);
            } else {
                assert(fb[i - back.len()] == x);
            }
        }
    }
    if forall|i: int| 0 <= i < statuses.len() ==> statuses[i] == OracleClaimAdmissionStatusV1::Admitted {
        assert(!statuses.contains(OracleClaimAdmissionStatusV1::Rejected));
        assert(!statuses.contains(OracleClaimAdmissionStatusV1::Partial));
    }
}

/// The phase of an Oracle-admitted task from its claim statuses.
pub fn oracle_outcome_phase(statuses: &Vec<OracleClaimAdmissionStatusV1>) -> (r: TaskPhaseV1)
    ensures
        r == oracle_phase(statuses@),
{
    let mut rejected = false;
    let mut partial = false;
    let mut i: usize = 0;
    while i < statuses.len()
        invariant
            i <= statuses@.len(),
            rejected == exists|j: int| 0 <= j < i && statuses@[j] == OracleClaimAdmissionStatusV1::Rejected,
            partial == exists|j: int| 0 <= j < i && statuses@[j] == OracleClaimAdmissionStatusV1::Partial,
        decreases statuses@.len() - i,
    {
        match statuses[i] {
            OracleClaimAdmissionStatusV1::Rejected => {
                rejected = true;
            },
            OracleClaimAdmissionStatusV1::Partial => {
                partial = true;
            },
            OracleClaimAdmissionStatusV1::Admitted => {},
        }
        i = i + 1;
    }
    if rejected {
        TaskPhaseV1::OracleRejected
    } else if partial {
        TaskPhaseV1::OraclePartial
    } else {
        TaskPhaseV1::OracleAccepted
    }
}

/// The phase a recorded Controller fact announces in the task's progress stream.
pub open spec fn event_phase(event: ControllerWorkflowEventV1) -> TaskPhaseV1 {
    match event {
        ControllerWorkflowEventV1::WorkflowFrozen(_) | ControllerWorkflowEventV1::SirEpisodeAuthorized(_) =>
            TaskPhaseV1::RecoveringIntent,
        ControllerWorkflowEventV1::SirProposalRecorded(_) | ControllerWorkflowEventV1::IntentDecisionRequestsRecorded(_) =>
            TaskPhaseV1::AwaitingIntentReview,
        ControllerWorkflowEventV1::UserIntentDecisionRecorded(_)
        | ControllerWorkflowEventV1::IntentAdmissionAuthorized(_)
        | ControllerWorkflowEventV1::AdmittedIntentRecorded(_) => TaskPhaseV1::AdmittingIntent,
        ControllerWorkflowEventV1::OracleExplorationOpened(_) => TaskPhaseV1::PreparingOracle,
        ControllerWorkflowEventV1::OracleStrategyAuthorized(_)
        | ControllerWorkflowEventV1::OracleStrategyObservationsRecorded(_)
        | ControllerWorkflowEventV1::OracleStrategySubmissionRecorded(_) => TaskPhaseV1::ExploringOracle,
        ControllerWorkflowEventV1::OraclePortfolioFrozen(_) => TaskPhaseV1::AwaitingOracleControls,
        ControllerWorkflowEventV1::OracleAdmissionAuthorized(_)
        | ControllerWorkflowEventV1::OracleControlAuthorized(_)
        | ControllerWorkflowEventV1::OracleControlObserved(_) => TaskPhaseV1::RunningOracleControls,
        ControllerWorkflowEventV1::OracleAdmissionRecorded(_) => TaskPhaseV1::OracleAccepted,
        ControllerWorkflowEventV1::WorkflowCancelled => TaskPhaseV1::Cancelled,
        _ => TaskPhaseV1::Blocked,
    }
}

/// The phase a recorded fact announces; a fact the API does not know announces a block.
pub fn phase_for_event(event: Option<&ControllerWorkflowEventV1>) -> (r: TaskPhaseV1)
    ensures
        r == match event {
            Some(e) => event_phase(*e),
            None => TaskPhaseV1::Blocked,
        },
{
    match event {
        None => TaskPhaseV1::Blocked,
        Some(e) => match e {
            ControllerWorkflowEventV1::WorkflowFrozen(_) | ControllerWorkflowEventV1::SirEpisodeAuthorized(_) =>
                TaskPhaseV1::RecoveringIntent,
            ControllerWorkflowEventV1::SirProposalRecorded(_) | ControllerWorkflowEventV1::IntentDecisionRequestsRecorded(_) =>
                TaskPhaseV1::AwaitingIntentReview,
            ControllerWorkflowEventV1::UserIntentDecisionRecorded(_)
            | ControllerWorkflowEventV1::IntentAdmissionAuthorized(_)
            | ControllerWorkflowEventV1::AdmittedIntentRecorded(_) => TaskPhaseV1::AdmittingIntent,
            ControllerWorkflowEventV1::OracleExplorationOpened(_) => TaskPhaseV1::PreparingOracle,
            ControllerWorkflowEventV1::OracleStrategyAuthorized(_)
            | ControllerWorkflowEventV1::OracleStrategyObservationsRecorded(_)
            | ControllerWorkflowEventV1::OracleStrategySubmissionRecorded(_) => TaskPhaseV1::ExploringOracle,
            ControllerWorkflowEventV1::OraclePortfolioFrozen(_) => TaskPhaseV1::AwaitingOracleControls,
            ControllerWorkflowEventV1::OracleAdmissionAuthorized(_)
            | ControllerWorkflowEventV1::OracleControlAuthorized(_)
            | ControllerWorkflowEventV1::OracleControlObserved(_) => TaskPhaseV1::RunningOracleControls,
            ControllerWorkflowEventV1::OracleAdmissionRecorded(_) => TaskPhaseV1::OracleAccepted,
            ControllerWorkflowEventV1::WorkflowCancelled => TaskPhaseV1::Cancelled,
            _ => TaskPhaseV1::Blocked,
        },
    }
}

/// Phases in which the background supervisor has nothing further to drive.
pub open spec fn is_terminal_phase(phase: TaskPhaseV1) -> bool {
    phase is OracleAccepted || phase is OraclePartial || phase is OracleRejected || phase is Cancelled || phase is Blocked
}

/// Whether the background supervisor has nothing further to drive for a phase.
pub fn terminal_phase(phase: TaskPhaseV1) -> (r: bool)
    ensures
        r == is_terminal_phase(phase),
{
    match phase {
        TaskPhaseV1::OracleAccepted
        | TaskPhaseV1::OraclePartial
        | TaskPhaseV1::OracleRejected
        | TaskPhaseV1::Cancelled
        | TaskPhaseV1::Blocked => true,
        _ => false,
    }
}

/// What the background supervisor does for one listed task.
#[derive(Clone, Copy, Debug, PartialEq, Eq, Structural)]
pub enum SupervisionActionV1 {
    /// The task's latest fact was already attempted, or it waits on something outside.
    Skip,
    /// Open the product Oracle workspace for the admitted intent.
    InitializeOracleWorkspace,
    /// Drive the Controller workflow one step.
    Drive,
}

/// The supervisor's decision for a task at `latest_sequence`: each fact is attempted once;
/// an admitted intent gets its Oracle workspace; a task waiting on attention other than intent
/// review, or in a terminal phase, is left alone.
pub open spec fn supervision_action(
    attempted: Option<u64>,
    latest_sequence: u64,
    phase: TaskPhaseV1,
    attention: Option<TaskAttentionV1>,
) -> SupervisionActionV1 {
    if attempted == Some(latest_sequence) {
        SupervisionActionV1::Skip
    } else if phase is PreparingOracle && attention == Some(TaskAttentionV1::OracleWorkspace) {
        SupervisionActionV1::InitializeOracleWorkspace
    } else if (attention is Some && !(phase is AwaitingIntentReview)) || is_terminal_phase(phase) {
        SupervisionActionV1::Skip
    } else {
        SupervisionActionV1::Drive
    }
}

/// Decides what the background supervisor does for one listed task.
pub fn supervise_task(
    attempted: Option<u64>,
    latest_sequence: u64,
    phase: TaskPhaseV1,
    attention: Option<TaskAttentionV1>,
) -> (r: SupervisionActionV1)
    ensures
        r == supervision_action(attempted, latest_sequence, phase, attention),
{
    let already = match attempted {
        Some(s) => s == latest_sequence,
        None => false,
    };
    if already {
        return SupervisionActionV1::Skip;
    }
    let needs_workspace = match attention {
        Some(TaskAttentionV1::OracleWorkspace) => matches!(phase, TaskPhaseV1::PreparingOracle),
        _ => false,
    };
    if needs_workspace {
        return SupervisionActionV1::InitializeOracleWorkspace;
    }
    if (attention.is_some() && !matches!(phase, TaskPhaseV1::AwaitingIntentReview)) || terminal_phase(phase) {
        return SupervisionActionV1::Skip;
    }
    SupervisionActionV1::Drive
}

/// Error class of a refused App API request.
#[derive(Clone, Copy, Debug, PartialEq, Eq, Structural)]
pub enum AppApiErrorCodeV1 {
    TaskNotFound,
    NotReady,
    Conflict,
    InvalidRequest,
    Internal,
}

/// Whether `needle` occurs in `haystack`, byte for byte.
pub open spec fn occurs_in(haystack: Seq<u8>, needle: Seq<u8>) -> bool {
    exists|i: int| 0 <= i && i + needle.len() <= haystack.len() && #[trigger] haystack.subrange(i, i + needle.len()) == needle
}

/// Whether a text contains another.
pub fn contains_text(haystack: &str, needle: &str) -> (r: bool)
    ensures
        r == occurs_in(haystack.spec_bytes(), needle.spec_bytes()),
{
    let h = haystack.as_bytes();
    let n = needle.as_bytes();
    if n.len() > h.len() {
        proof {
            assert forall|i: int| 0 <= i && i + n@.len() <= h@.len() implies #[trigger] h@.subrange(i, i + n@.len()) != n@ by {}
        }
        return false;
    }
    let hl = h.len();
    let last = hl - n.len();
    let mut i: usize = 0;
    while i <= last
        invariant
            hl == h@.len(),
            last == h@.len() - n@.len(),
            h@ == haystack.spec_bytes(),
            n@ == needle.spec_bytes(),
            n@.len() <= h@.len(),
            i <= h@.len() - n@.len() + 1,
            forall|k: int| 0 <= k < i ==> #[trigger] h@.subrange(k, k + n@.len()) != n@,
        decreases h@.len() - i,
    {
        let mut j: usize = 0;
        let mut same = true;
        while j < n.len()
            invariant
                i + n@.len() <= h@.len(),
                hl == h@.len(),
                j <= n@.len(),
                same == forall|t: int| 0 <= t < j ==> h@[i + t] == n@[t],
            decreases n@.len() - j,
        {
            if h[i + j] != n[j] {
                same = false;
            }
            j = j + 1;
        }
        if same {
            assert(h@.subrange(i as int, i + n@.len()) =~= n@);
            return true;
        }
        proof {
            let t = choose|t: int| 0 <= t < n@.len() && h@[i + t] != n@[t];
            assert(h@.subrange(i as int, i + n@.len())[t] != n@[t]);
        }
        i = i + 1;
    }
    false
}

/// The error class of a refused App API request: unknown tasks, workflow states not ready for
/// the request, command identity conflicts, invalid configuration-derived input, and internal
/// failures.
pub fn classify_error(error: &ServerError) -> (r: AppApiErrorCodeV1)
    ensures
        r == match *error {
            ServerError::RegistryEntryNotFound(_) => AppApiErrorCodeV1::TaskNotFound,
            ServerError::MigrationWorkflow(m) => if occurs_in(encode_utf8(m@), encode_utf8("not awaiting"@)) {
                AppApiErrorCodeV1::NotReady
            } else if occurs_in(encode_utf8(m@), encode_utf8("command"@)) {
                AppApiErrorCodeV1::Conflict
            } else {
                AppApiErrorCodeV1::Internal
            },
            ServerError::Configuration(_) => AppApiErrorCodeV1::InvalidRequest,
            _ => AppApiErrorCodeV1::Internal,
        },
{
    match error {
        ServerError::RegistryEntryNotFound(_) => AppApiErrorCodeV1::TaskNotFound,
        ServerError::MigrationWorkflow(message) => {
            if contains_text(message.as_str(), "not awaiting") {
                AppApiErrorCodeV1::NotReady
            } else if contains_text(message.as_str(), "command") {
                AppApiErrorCodeV1::Conflict
            } else {
                AppApiErrorCodeV1::Internal
            }
        },
        ServerError::Configuration(_) => AppApiErrorCodeV1::InvalidRequest,
        _ => AppApiErrorCodeV1::Internal,
    }
}

/// A workflow failure at the App API boundary.
pub fn migration_error(message: String) -> (r: ServerError)
    ensures
        r == ServerError::MigrationWorkflow(message),
{
    ServerError::MigrationWorkflow(message)
}

/// The observation time a command reuses: the time recorded with the first fact of the same
/// command identity, or `None` when the command is new and takes the current time.
pub fn command_observed_at(history: &Vec<RecordedControllerEventV1>, command_id: u64) -> (r: Option<i64>)
    ensures
        r == (if prior_command(history@, command_id) >= 0 {
            Some(history@[prior_command(history@, command_id)].observed_at)
        } else {
            None
        }),
{
    match find_prior_command(history, command_id) {
        Some(i) => Some(history[i].observed_at),
        None => None,
    }
}

/// The SIR proposal, and the decision-request batch once one is recorded, that an intent
/// review shows; only a task whose SIR proposal awaits review has one.
pub fn intent_review_target(state: &ControllerWorkflowStateV1) -> (r: Result<(u64, Option<u64>), ServerError>)
    ensures
        match *state {
            ControllerWorkflowStateV1::SirProposed { proposal, .. } => r == Ok::<(u64, Option<u64>), ServerError>((proposal, None)),
            ControllerWorkflowStateV1::AwaitingUserIntentDecision { proposal, requests, .. } =>
                r == Ok::<(u64, Option<u64>), ServerError>((proposal, Some(requests))),
            _ => r matches Err(ServerError::MigrationWorkflow(m)) && m@ == "task has no SIR proposal ready for intent review"@,
        },
{
    match state {
        ControllerWorkflowStateV1::SirProposed { proposal, .. } => Ok((*proposal, None)),
        ControllerWorkflowStateV1::AwaitingUserIntentDecision { proposal, requests, .. } => Ok((*proposal, Some(*requests))),
        _ => Err(ServerError::MigrationWorkflow("task has no SIR proposal ready for intent review".to_owned())),
    }
}

/// The option of a user intent decision request that names the selected hypothesis: the first
/// option offering it; a hypothesis the request does not offer cannot be selected.
pub fn selected_option(options: &Vec<String>, hypothesis: &String) -> (r: Result<usize, ServerError>)
    ensures
        match r {
            Ok(i) => i < options@.len() && options@[i as int]@ == hypothesis@
                && forall|j: int| 0 <= j < i ==> (#[trigger] options@[j])@ != hypothesis@,
            Err(e) => (e matches ServerError::MigrationWorkflow(m)
                && m@ == "selected hypothesis is not an option for the exact request"@)
                && forall|j: int| 0 <= j < options@.len() ==> (#[trigger] options@[j])@ != hypothesis@,
        },
{
    let mut i: usize = 0;
    while i < options.len()
        invariant
            i <= options@.len(),
            forall|j: int| 0 <= j < i ==> (#[trigger] options@[j])@ != hypothesis@,
        decreases options@.len() - i,
    {
        if options[i] == *hypothesis {
            return Ok(i);
        }
        i = i + 1;
    }
    Err(ServerError::MigrationWorkflow("selected hypothesis is not an option for the exact request".to_owned()))
}

} // verus!
