//! Controller commands. Each one recovers the task stream, answers an exact replay, and
//! otherwise decides the single fact that advances the workflow; the caller appends it.

use vstd::prelude::*;

use crate::controller::decide::{
    ControllerWorkflowDecisionV1, close_command, command_spec, open_command, open_recovered, recovered_command_spec,
};
use crate::controller::events::{
    AdmittedIntentRecordedPayload, CandidateAdmissionAuthorizedPayload,
    CandidateAdmissionRecordedPayload, CandidateBuildAuthorizedPayload, CandidateBuildFrozenPayload,
    CandidateBuildObservedPayload, CandidateOracleContractFrozenPayload,
    CandidateProposalEpisodeAuthorizedPayload, CandidateProposalRecordedPayload,
    CandidateProposalRequestFrozenPayload, CandidateRequestFactsV1, CompletionBindingV1,
    ControllerWorkflowError, ControllerWorkflowEventV1, IntentAdmissionAuthorizedPayload,
    IntentAdmissionBlockedPayload, IntentDecisionRequestsRecordedPayload,
    OracleAdmissionAuthorizedPayload, OracleAdmissionRecordedPayload, OracleControlAuthorizedPayload,
    OracleControlObservedPayload, OracleExplorationOpenedPayload, OraclePortfolioFrozenPayload,
    OracleStrategyAuthorizedPayload, OracleStrategyObservationsRecordedPayload,
    OracleStrategySubmissionRecordedPayload, SirEpisodeAuthorizedPayload, SirProposalRecordedPayload,
    UserIntentDecisionRecordedPayload, WorkflowFrozenPayload,
};
use crate::controller::recover::{RecordedControllerEventV1, recover_controller_workflow, replay};
use crate::controller::state::ControllerWorkflowStateV1;
use crate::controller::types::{
    FrozenOracleExplorationAuthorityV1, FrozenSirAuthorityV1, IntentAdmissionBlockReasonV1,
    IntentContractBodyV1, OracleControlReceiptV1, ReceiptList,
};

use crate::controller::completion::{
    OracleStrategyRunBindingV1, StrategyCompletionEvidenceV1, bind_strategy_completion, completion_binding,
};
verus! {

/// What a validated SIR proposal-step terminal and its request name.
#[derive(Clone, Copy, Debug, PartialEq, Eq, Structural)]
pub struct SirTerminalFactsV1 {
    pub request_identity: u64,
    pub request_recovery_input: u64,
    pub terminal_episode: u64,
    pub proposal_recovery_input: u64,
    pub proposal_episode: u64,
    /// Whether the proposal's model configuration is the request's.
    pub model_matches: bool,
}

/// What a user intent decision, its request, grant, and batch name.
#[derive(Clone, Copy, Debug, PartialEq, Eq, Structural)]
pub struct UserDecisionFactsV1 {
    pub batch_identity: u64,
    pub batch_proposal: u64,
    pub batch_recovery_input: u64,
    /// Whether the batch contains exactly this request under this identity.
    pub batch_contains_request: bool,
    pub request_proposal: u64,
    pub request_recovery_input: u64,
    pub grant_task: u64,
    pub decision_request: u64,
    pub decision_grant: u64,
}

/// What an admitted intent contract names.
#[derive(Clone, Copy, Debug, PartialEq, Eq, Structural)]
pub struct IntentContractFactsV1 {
    pub task_id: u64,
    pub recovery_input: u64,
    pub proposal: u64,
    pub request: u64,
    pub authority_grant: u64,
    pub user_decision: u64,
}

/// What an Oracle workspace and the SIR recovery input it was opened for name.
#[derive(Clone, Copy, Debug, PartialEq, Eq, Structural)]
pub struct OracleWorkspaceFactsV1 {
    pub recovery_input_task: u64,
    pub workspace_task: u64,
    pub workspace_admitted_intent: u64,
    pub workspace_sir_input: u64,
    /// Whether the workspace's SIR task bundle is the recovery input's.
    pub sir_task_bundle_matches: bool,
    pub workspace_coverage_policy: u64,
    pub workspace_strategy_catalog: u64,
    /// Whether the ledger is the one opened from the derived work items, or `None` when the
    /// work items or the ledger could not be derived.
    pub ledger_opened: Option<bool>,
}

/// A command that no recovered state refuses beyond its transition arc.
pub open spec fn no_refusal() -> spec_fn(ControllerWorkflowStateV1) -> Option<ControllerWorkflowError> {
    |s: ControllerWorkflowStateV1| None::<ControllerWorkflowError>
}

/// What the caller recomputed of the SIR material a task is frozen with.
#[derive(Clone, Copy, Debug, PartialEq, Eq, Structural)]
pub struct FrozenMaterialFactsV1 {
    /// Whether the request's own SIR recovery input is exactly the presented recovery input, or
    /// `None` when the request carries no SIR recovery input.
    pub input_matches_request: Option<bool>,
    /// The request's recomputed identity, or `None` when it cannot be computed.
    pub request_identity: Option<u64>,
    /// The recovery input's recomputed identity, or `None` when it cannot be computed.
    pub recovery_input_identity: Option<u64>,
    /// The task the recovery input belongs to.
    pub input_task: u64,
}

/// Why frozen material is refused, checked in order: the request's recovery input must be
/// derivable, the request must have its claimed identity, the recovery input must have its
/// claimed identity, be the request's own, and belong to the workflow's task.
pub open spec fn frozen_material_refusal(
    task_id: u64,
    request: u64,
    recovery_input: u64,
    facts: FrozenMaterialFactsV1,
) -> Option<ControllerWorkflowError> {
    match facts.input_matches_request {
        None => Some(ControllerWorkflowError::Binding),
        Some(same) => match facts.request_identity {
            None => Some(ControllerWorkflowError::Binding),
            Some(rid) => if rid != request {
                Some(ControllerWorkflowError::BindingMismatch)
            } else {
                match facts.recovery_input_identity {
                    None => Some(ControllerWorkflowError::Binding),
                    Some(iid) => if iid != recovery_input || !same || facts.input_task != task_id {
                        Some(ControllerWorkflowError::BindingMismatch)
                    } else {
                        None
                    },
                }
            },
        },
    }
}

/// Checks the frozen material (see `frozen_material_refusal`).
pub fn check_frozen_material(task_id: u64, request: u64, recovery_input: u64, facts: &FrozenMaterialFactsV1) -> (r:
    Option<ControllerWorkflowError>)
    ensures
        r == frozen_material_refusal(task_id, request, recovery_input, *facts),
{
    let same = match facts.input_matches_request {
        None => return Some(ControllerWorkflowError::Binding),
        Some(same) => same,
    };
    match facts.request_identity {
        None => return Some(ControllerWorkflowError::Binding),
        Some(rid) => if rid != request {
            return Some(ControllerWorkflowError::BindingMismatch);
        },
    }
    match facts.recovery_input_identity {
        None => Some(ControllerWorkflowError::Binding),
        Some(iid) => if iid != recovery_input || !same || facts.input_task != task_id {
            Some(ControllerWorkflowError::BindingMismatch)
        } else {
            None
        },
    }
}

/// Freezes the exact task, proposal-step request, recovery input, and episode authority, once
/// the material is shown to be the task's own exact SIR material.
pub fn freeze_controller_workflow(
    task_id: u64,
    history: &Vec<RecordedControllerEventV1>,
    request: u64,
    recovery_input: u64,
    episode_id: u64,
    material: &FrozenMaterialFactsV1,
    command_id: u64,
    observed_at: i64,
) -> (r: Result<ControllerWorkflowDecisionV1, ControllerWorkflowError>)
    ensures
        r == command_spec(
            task_id,
            history@,
            command_id,
            observed_at,
            frozen_material_refusal(task_id, request, recovery_input, *material),
            ControllerWorkflowEventV1::WorkflowFrozen(WorkflowFrozenPayload {
                authority: FrozenSirAuthorityV1 { task_id, request, recovery_input, episode_id },
            }),
            no_refusal(),
        ),
{
    match check_frozen_material(task_id, request, recovery_input, material) {
        Some(e) => return Err(e),
        None => {},
    }
    let event = ControllerWorkflowEventV1::WorkflowFrozen(WorkflowFrozenPayload {
        authority: FrozenSirAuthorityV1 { task_id, request, recovery_input, episode_id },
    });
    match open_command(task_id, history, command_id, observed_at, &event) {
        Err(answer) => answer,
        Ok(state) => close_command(task_id, history, state, command_id, observed_at, event),
    }
}

/// Durably cancels a task without deleting its history; terminal tasks cannot be relabelled.
pub fn cancel_controller_workflow(
    task_id: u64,
    history: &Vec<RecordedControllerEventV1>,
    command_id: u64,
    observed_at: i64,
) -> (r: Result<ControllerWorkflowDecisionV1, ControllerWorkflowError>)
    ensures
        r == command_spec(task_id, history@, command_id, observed_at, None,
            ControllerWorkflowEventV1::WorkflowCancelled, no_refusal()),
{
    let event = ControllerWorkflowEventV1::WorkflowCancelled;
    match open_command(task_id, history, command_id, observed_at, &event) {
        Err(answer) => answer,
        Ok(state) => close_command(task_id, history, state, command_id, observed_at, event),
    }
}

/// Commits durable start authority before the external Proposal step effect may run.
pub fn authorize_sir_episode(
    task_id: u64,
    history: &Vec<RecordedControllerEventV1>,
    request: u64,
    command_id: u64,
    observed_at: i64,
) -> (r: Result<ControllerWorkflowDecisionV1, ControllerWorkflowError>)
    ensures
        r == command_spec(task_id, history@, command_id, observed_at, None,
            ControllerWorkflowEventV1::SirEpisodeAuthorized(SirEpisodeAuthorizedPayload { request }), no_refusal()),
{
    let event = ControllerWorkflowEventV1::SirEpisodeAuthorized(SirEpisodeAuthorizedPayload { request });
    match open_command(task_id, history, command_id, observed_at, &event) {
        Err(answer) => answer,
        Ok(state) => close_command(task_id, history, state, command_id, observed_at, event),
    }
}

/// Refusal of a SIR terminal whose request, episode, recovery input or model drifted from the
/// authorized episode.
pub open spec fn sir_terminal_refusal(facts: SirTerminalFactsV1) -> spec_fn(ControllerWorkflowStateV1) -> Option<ControllerWorkflowError> {
    |s: ControllerWorkflowStateV1| match s {
        ControllerWorkflowStateV1::SirEpisodeAuthorized(a) => if facts.request_identity == a.request
            && facts.request_recovery_input == a.recovery_input && facts.terminal_episode == a.episode_id
            && facts.proposal_recovery_input == a.recovery_input && facts.proposal_episode == a.episode_id
            && facts.model_matches {
            None
        } else {
            Some(ControllerWorkflowError::BindingMismatch)
        },
        _ => None,
    }
}

/// Records a validated SIR proposal-step terminal as the proposal observation. The stream is
/// recovered first; then `terminal_valid` states that the terminal validates against its request,
/// and `proposal` is the proposal it publishes when it has the SIR role.
pub fn record_sir_proposal(
    task_id: u64,
    history: &Vec<RecordedControllerEventV1>,
    terminal_valid: bool,
    terminal_id: u64,
    terminal_identity: u64,
    proposal: Option<u64>,
    facts: SirTerminalFactsV1,
    command_id: u64,
    observed_at: i64,
) -> (r: Result<ControllerWorkflowDecisionV1, ControllerWorkflowError>)
    ensures
        replay(task_id, history@) matches Err(e) ==> r == Err::<ControllerWorkflowDecisionV1, ControllerWorkflowError>(e),
        replay(task_id, history@) is Ok && !terminal_valid
            ==> r == Err::<ControllerWorkflowDecisionV1, ControllerWorkflowError>(ControllerWorkflowError::Binding),
        replay(task_id, history@) is Ok && terminal_valid && (terminal_identity != terminal_id || proposal is None)
            ==> r == Err::<ControllerWorkflowDecisionV1, ControllerWorkflowError>(ControllerWorkflowError::BindingMismatch),
        terminal_valid && terminal_identity == terminal_id && proposal is Some ==> r == recovered_command_spec(task_id,
            history@, command_id, observed_at, None,
            ControllerWorkflowEventV1::SirProposalRecorded(SirProposalRecordedPayload {
                terminal: terminal_id,
                proposal: proposal->0,
            }), sir_terminal_refusal(facts)),
{
    let state = match recover_controller_workflow(task_id, history) {
        Ok(state) => state,
        Err(e) => return Err(e),
    };
    if !terminal_valid {
        return Err(ControllerWorkflowError::Binding);
    }
    let proposal = match proposal {
        Some(p) => p,
        None => return Err(ControllerWorkflowError::BindingMismatch),
    };
    if terminal_identity != terminal_id {
        return Err(ControllerWorkflowError::BindingMismatch);
    }
    let event = ControllerWorkflowEventV1::SirProposalRecorded(SirProposalRecordedPayload { terminal: terminal_id, proposal });
    match open_recovered(task_id, history, state, command_id, observed_at, &event) {
        Err(answer) => answer,
        Ok(state) => {
            let refused = match &state {
                ControllerWorkflowStateV1::SirEpisodeAuthorized(a) => !(facts.request_identity == a.request
                    && facts.request_recovery_input == a.recovery_input && facts.terminal_episode == a.episode_id
                    && facts.proposal_recovery_input == a.recovery_input && facts.proposal_episode == a.episode_id
                    && facts.model_matches),
                _ => false,
            };
            if refused {
                Err(ControllerWorkflowError::BindingMismatch)
            } else {
                close_command(task_id, history, state, command_id, observed_at, event)
            }
        },
    }
}

/// Refusal of a decision-request batch that names another proposal or recovery input.
pub open spec fn request_batch_refusal(batch_proposal: u64, batch_recovery_input: u64) -> spec_fn(ControllerWorkflowStateV1) -> Option<ControllerWorkflowError> {
    |s: ControllerWorkflowStateV1| match s {
        ControllerWorkflowStateV1::SirProposed { authority, proposal, .. } =>
            if batch_proposal == proposal && batch_recovery_input == authority.recovery_input {
                None
            } else {
                Some(ControllerWorkflowError::BindingMismatch)
            },
        _ => None,
    }
}

/// Records model-free decision requests and stops before user intent authority exists. The
/// stream is recovered before the batch identity is checked.
pub fn record_intent_decision_requests(
    task_id: u64,
    history: &Vec<RecordedControllerEventV1>,
    requests_id: u64,
    requests_identity: u64,
    batch_proposal: u64,
    batch_recovery_input: u64,
    command_id: u64,
    observed_at: i64,
) -> (r: Result<ControllerWorkflowDecisionV1, ControllerWorkflowError>)
    ensures
        r == recovered_command_spec(task_id, history@, command_id, observed_at,
            if requests_identity == requests_id { None } else { Some(ControllerWorkflowError::BindingMismatch) },
            ControllerWorkflowEventV1::IntentDecisionRequestsRecorded(IntentDecisionRequestsRecordedPayload { requests: requests_id }),
            request_batch_refusal(batch_proposal, batch_recovery_input)),
{
    let state = match recover_controller_workflow(task_id, history) {
        Ok(state) => state,
        Err(e) => return Err(e),
    };
    if requests_identity != requests_id {
        return Err(ControllerWorkflowError::BindingMismatch);
    }
    let event = ControllerWorkflowEventV1::IntentDecisionRequestsRecorded(
        IntentDecisionRequestsRecordedPayload { requests: requests_id },
    );
    match open_recovered(task_id, history, state, command_id, observed_at, &event) {
        Err(answer) => answer,
        Ok(state) => {
            let refused = match &state {
                ControllerWorkflowStateV1::SirProposed { authority, proposal, .. } =>
                    !(batch_proposal == *proposal && batch_recovery_input == authority.recovery_input),
                _ => false,
            };
            if refused {
                Err(ControllerWorkflowError::BindingMismatch)
            } else {
                close_command(task_id, history, state, command_id, observed_at, event)
            }
        },
    }
}

/// Refusal of a user decision whose batch, request, grant or decision does not bind to the
/// awaiting state.
pub open spec fn user_decision_refusal(
    request_id: u64,
    grant_id: u64,
    facts: UserDecisionFactsV1,
) -> spec_fn(ControllerWorkflowStateV1) -> Option<ControllerWorkflowError> {
    |s: ControllerWorkflowStateV1| match s {
        ControllerWorkflowStateV1::AwaitingUserIntentDecision { authority, proposal, requests, .. } =>
            if facts.batch_identity == requests && facts.batch_proposal == proposal
                && facts.batch_recovery_input == authority.recovery_input && facts.batch_contains_request
                && facts.request_proposal == proposal && facts.request_recovery_input == authority.recovery_input
                && facts.grant_task == authority.task_id && facts.decision_request == request_id
                && facts.decision_grant == grant_id {
                None
            } else {
                Some(ControllerWorkflowError::BindingMismatch)
            },
        _ => None,
    }
}

/// Records an authenticated task-authority decision without interpreting it as admitted
/// intent. `identities_match` states that the request, grant, and decision bodies have the
/// given identities.
pub fn record_user_intent_decision(
    task_id: u64,
    history: &Vec<RecordedControllerEventV1>,
    request_id: u64,
    grant_id: u64,
    decision_id: u64,
    identities_match: bool,
    facts: UserDecisionFactsV1,
    command_id: u64,
    observed_at: i64,
) -> (r: Result<ControllerWorkflowDecisionV1, ControllerWorkflowError>)
    ensures
        r == command_spec(task_id, history@, command_id, observed_at,
            if identities_match { None } else { Some(ControllerWorkflowError::BindingMismatch) },
            ControllerWorkflowEventV1::UserIntentDecisionRecorded(UserIntentDecisionRecordedPayload {
                request: request_id,
                authority_grant: grant_id,
                decision: decision_id,
            }), user_decision_refusal(request_id, grant_id, facts)),
{
    if !identities_match {
        return Err(ControllerWorkflowError::BindingMismatch);
    }
    let event = ControllerWorkflowEventV1::UserIntentDecisionRecorded(UserIntentDecisionRecordedPayload {
        request: request_id,
        authority_grant: grant_id,
        decision: decision_id,
    });
    match open_command(task_id, history, command_id, observed_at, &event) {
        Err(answer) => answer,
        Ok(state) => {
            let refused = match &state {
                ControllerWorkflowStateV1::AwaitingUserIntentDecision { authority, proposal, requests, .. } =>
                    !(facts.batch_identity == *requests && facts.batch_proposal == *proposal
                        && facts.batch_recovery_input == authority.recovery_input && facts.batch_contains_request
                        && facts.request_proposal == *proposal && facts.request_recovery_input == authority.recovery_input
                        && facts.grant_task == authority.task_id && facts.decision_request == request_id
                        && facts.decision_grant == grant_id),
                _ => false,
            };
            if refused {
                Err(ControllerWorkflowError::BindingMismatch)
            } else {
                close_command(task_id, history, state, command_id, observed_at, event)
            }
        },
    }
}

/// Refusal of a first Intent Admission authorization from any state but a recorded decision.
pub open spec fn first_admission_refusal() -> spec_fn(ControllerWorkflowStateV1) -> Option<ControllerWorkflowError> {
    |s: ControllerWorkflowStateV1| if s is UserIntentDecisionRecorded {
        None
    } else {
        Some(ControllerWorkflowError::InvalidTransition)
    }
}

/// Refusal of a reauthorization from any state but a blocked Intent Admission.
pub open spec fn repeated_admission_refusal() -> spec_fn(ControllerWorkflowStateV1) -> Option<ControllerWorkflowError> {
    |s: ControllerWorkflowStateV1| if s is IntentAdmissionBlocked {
        None
    } else {
        Some(ControllerWorkflowError::InvalidTransition)
    }
}

/// Commits the exact independent Admission executable before the restricted effect may start.
pub fn authorize_intent_admission(
    task_id: u64,
    history: &Vec<RecordedControllerEventV1>,
    decision: u64,
    executable: u64,
    restricted_store: u64,
    command_id: u64,
    observed_at: i64,
) -> (r: Result<ControllerWorkflowDecisionV1, ControllerWorkflowError>)
    ensures
        r == command_spec(task_id, history@, command_id, observed_at, None,
            ControllerWorkflowEventV1::IntentAdmissionAuthorized(IntentAdmissionAuthorizedPayload {
                decision,
                executable,
                restricted_store,
            }), first_admission_refusal()),
{
    let event = ControllerWorkflowEventV1::IntentAdmissionAuthorized(IntentAdmissionAuthorizedPayload {
        decision,
        executable,
        restricted_store,
    });
    match open_command(task_id, history, command_id, observed_at, &event) {
        Err(answer) => answer,
        Ok(state) => {
            if !matches!(state, ControllerWorkflowStateV1::UserIntentDecisionRecorded { .. }) {
                Err(ControllerWorkflowError::InvalidTransition)
            } else {
                close_command(task_id, history, state, command_id, observed_at, event)
            }
        },
    }
}

/// Records that the exact authorized Intent Admission effect failed before publication.
pub fn record_intent_admission_blocked(
    task_id: u64,
    history: &Vec<RecordedControllerEventV1>,
    decision: u64,
    executable: u64,
    restricted_store: u64,
    reason: IntentAdmissionBlockReasonV1,
    command_id: u64,
    observed_at: i64,
) -> (r: Result<ControllerWorkflowDecisionV1, ControllerWorkflowError>)
    ensures
        r == command_spec(task_id, history@, command_id, observed_at, None,
            ControllerWorkflowEventV1::IntentAdmissionBlocked(IntentAdmissionBlockedPayload {
                decision,
                executable,
                restricted_store,
                reason,
            }), no_refusal()),
{
    let event = ControllerWorkflowEventV1::IntentAdmissionBlocked(IntentAdmissionBlockedPayload {
        decision,
        executable,
        restricted_store,
        reason,
    });
    match open_command(task_id, history, command_id, observed_at, &event) {
        Err(answer) => answer,
        Ok(state) => close_command(task_id, history, state, command_id, observed_at, event),
    }
}

/// Reauthorizes a blocked Intent Admission operation against a newly frozen executable/store.
pub fn reauthorize_intent_admission(
    task_id: u64,
    history: &Vec<RecordedControllerEventV1>,
    decision: u64,
    executable: u64,
    restricted_store: u64,
    command_id: u64,
    observed_at: i64,
) -> (r: Result<ControllerWorkflowDecisionV1, ControllerWorkflowError>)
    ensures
        r == command_spec(task_id, history@, command_id, observed_at, None,
            ControllerWorkflowEventV1::IntentAdmissionAuthorized(IntentAdmissionAuthorizedPayload {
                decision,
                executable,
                restricted_store,
            }), repeated_admission_refusal()),
{
    let event = ControllerWorkflowEventV1::IntentAdmissionAuthorized(IntentAdmissionAuthorizedPayload {
        decision,
        executable,
        restricted_store,
    });
    match open_command(task_id, history, command_id, observed_at, &event) {
        Err(answer) => answer,
        Ok(state) => {
            if !matches!(state, ControllerWorkflowStateV1::IntentAdmissionBlocked { .. }) {
                Err(ControllerWorkflowError::InvalidTransition)
            } else {
                close_command(task_id, history, state, command_id, observed_at, event)
            }
        },
    }
}

/// Refusal of an admitted intent contract that names another task, input, proposal, request,
/// grant or decision.
pub open spec fn contract_refusal(facts: IntentContractFactsV1) -> spec_fn(ControllerWorkflowStateV1) -> Option<ControllerWorkflowError> {
    |s: ControllerWorkflowStateV1| match s {
        ControllerWorkflowStateV1::IntentAdmissionAuthorized { authority, proposal, request, authority_grant, decision, .. } =>
            if facts.task_id == authority.task_id && facts.recovery_input == authority.recovery_input
                && facts.proposal == proposal && facts.request == request
                && facts.authority_grant == authority_grant && facts.user_decision == decision {
                None
            } else {
                Some(ControllerWorkflowError::BindingMismatch)
            },
        _ => None,
    }
}

/// Records the public outcome returned after the independent Admission restricted commit.
pub fn record_admitted_intent(
    task_id: u64,
    history: &Vec<RecordedControllerEventV1>,
    outcome_id: u64,
    outcome_identity: u64,
    contract_id: u64,
    contract_body: IntentContractBodyV1,
    facts: IntentContractFactsV1,
    command_id: u64,
    observed_at: i64,
) -> (r: Result<ControllerWorkflowDecisionV1, ControllerWorkflowError>)
    ensures
        r == command_spec(task_id, history@, command_id, observed_at,
            if outcome_identity == outcome_id { None } else { Some(ControllerWorkflowError::BindingMismatch) },
            ControllerWorkflowEventV1::AdmittedIntentRecorded(AdmittedIntentRecordedPayload {
                outcome: outcome_id,
                contract: contract_id,
                contract_body,
            }), contract_refusal(facts)),
{
    if outcome_identity != outcome_id {
        return Err(ControllerWorkflowError::BindingMismatch);
    }
    let event = ControllerWorkflowEventV1::AdmittedIntentRecorded(AdmittedIntentRecordedPayload {
        outcome: outcome_id,
        contract: contract_id,
        contract_body,
    });
    match open_command(task_id, history, command_id, observed_at, &event) {
        Err(answer) => answer,
        Ok(state) => {
            let refused = match &state {
                ControllerWorkflowStateV1::IntentAdmissionAuthorized {
                    authority, proposal, request, authority_grant, decision, ..
                } => !(facts.task_id == authority.task_id && facts.recovery_input == authority.recovery_input
                    && facts.proposal == *proposal && facts.request == *request
                    && facts.authority_grant == *authority_grant && facts.user_decision == *decision),
                _ => false,
            };
            if refused {
                Err(ControllerWorkflowError::BindingMismatch)
            } else {
                close_command(task_id, history, state, command_id, observed_at, event)
            }
        },
    }
}

/// The exact Oracle Exploration material a caller presents: identities of the SIR recovery
/// input, the workspace, its coverage policy and strategy catalog, and the initial ledger.
#[derive(Clone, Copy, Debug, PartialEq, Eq, Structural)]
pub struct OracleExplorationMaterialV1 {
    pub recovery_input: u64,
    pub workspace: u64,
    pub coverage_policy: u64,
    pub strategy_catalog: u64,
    pub ledger: u64,
    pub ledger_revision: u64,
}

/// What an Oracle Exploration opens from, taken from the recovered state: the admitted intent's
/// outcome and contract, its Oracle claims and the authorized SIR recovery input.
#[derive(Clone, Copy, Debug, PartialEq, Eq, Structural)]
pub struct OracleExplorationBasisV1 {
    pub outcome: u64,
    pub contract: u64,
    pub claims: u64,
    pub recovery_input: u64,
}

/// The basis an admitted intent or an already opened exploration offers; no other state offers
/// one.
pub open spec fn exploration_basis(state: ControllerWorkflowStateV1) -> Option<OracleExplorationBasisV1> {
    match state {
        ControllerWorkflowStateV1::AdmittedIntent { authority, outcome, contract, contract_body, .. } =>
            Some(OracleExplorationBasisV1 {
                outcome,
                contract,
                claims: contract_body.oracle_claims,
                recovery_input: authority.recovery_input,
            }),
        ControllerWorkflowStateV1::OracleExplorationOpened(a) => Some(OracleExplorationBasisV1 {
            outcome: a.admitted_intent_outcome,
            contract: a.admitted_intent,
            claims: a.claims,
            recovery_input: a.recovery_input,
        }),
        _ => None,
    }
}

/// Refusal of Oracle material that was not opened for the admitted intent and its SIR input,
/// checked in order: the recovery input, workspace, policy and catalog must bind to the basis
/// and the task, and the ledger must be derivable and be the one opened from them.
pub open spec fn exploration_refusal(
    task_id: u64,
    basis: OracleExplorationBasisV1,
    material: OracleExplorationMaterialV1,
    facts: OracleWorkspaceFactsV1,
) -> Option<ControllerWorkflowError> {
    if !(material.recovery_input == basis.recovery_input && facts.recovery_input_task == task_id
        && facts.workspace_task == task_id && facts.workspace_admitted_intent == basis.contract
        && facts.workspace_sir_input == material.recovery_input && facts.sir_task_bundle_matches
        && facts.workspace_coverage_policy == material.coverage_policy
        && facts.workspace_strategy_catalog == material.strategy_catalog) {
        Some(ControllerWorkflowError::BindingMismatch)
    } else {
        match facts.ledger_opened {
            None => Some(ControllerWorkflowError::Binding),
            Some(false) => Some(ControllerWorkflowError::BindingMismatch),
            Some(true) => None,
        }
    }
}

/// The exploration authority an opening records for the task.
pub open spec fn opening_authority(
    task_id: u64,
    basis: OracleExplorationBasisV1,
    material: OracleExplorationMaterialV1,
) -> FrozenOracleExplorationAuthorityV1 {
    FrozenOracleExplorationAuthorityV1 {
        task_id,
        admitted_intent_outcome: basis.outcome,
        admitted_intent: basis.contract,
        recovery_input: material.recovery_input,
        workspace: material.workspace,
        coverage_policy: material.coverage_policy,
        strategy_catalog: material.strategy_catalog,
        claims: basis.claims,
        ledger: material.ledger,
        ledger_revision: material.ledger_revision,
    }
}

/// The answer to opening an Oracle Exploration: the stream is recovered; a state that offers no
/// basis is an invalid transition; the material is bound to the basis; then the opening fact
/// is replayed, refused or owed as for any command.
pub open spec fn exploration_answer(
    task_id: u64,
    history: Seq<RecordedControllerEventV1>,
    material: OracleExplorationMaterialV1,
    facts: OracleWorkspaceFactsV1,
    command_id: u64,
    observed_at: i64,
) -> Result<ControllerWorkflowDecisionV1, ControllerWorkflowError> {
    match replay(task_id, history) {
        Err(e) => Err(e),
        Ok(state) => match exploration_basis(state) {
            None => Err(ControllerWorkflowError::InvalidTransition),
            Some(basis) => match exploration_refusal(task_id, basis, material, facts) {
                Some(e) => Err(e),
                None => command_spec(task_id, history, command_id, observed_at, None,
                    ControllerWorkflowEventV1::OracleExplorationOpened(OracleExplorationOpenedPayload {
                        authority: opening_authority(task_id, basis, material),
                    }), no_refusal()),
            },
        },
    }
}

fn basis_of(state: &ControllerWorkflowStateV1) -> (r: Option<OracleExplorationBasisV1>)
    ensures
        r == exploration_basis(*state),
{
    match state {
        ControllerWorkflowStateV1::AdmittedIntent { authority, outcome, contract, contract_body, .. } =>
            Some(OracleExplorationBasisV1 {
                outcome: *outcome,
                contract: *contract,
                claims: contract_body.oracle_claims,
                recovery_input: authority.recovery_input,
            }),
        ControllerWorkflowStateV1::OracleExplorationOpened(a) => Some(OracleExplorationBasisV1 {
            outcome: a.admitted_intent_outcome,
            contract: a.admitted_intent,
            claims: a.claims,
            recovery_input: a.recovery_input,
        }),
        _ => None,
    }
}

fn check_exploration(
    task_id: u64,
    basis: OracleExplorationBasisV1,
    material: OracleExplorationMaterialV1,
    facts: OracleWorkspaceFactsV1,
) -> (r: Option<ControllerWorkflowError>)
    ensures
        r == exploration_refusal(task_id, basis, material, facts),
{
    if !(material.recovery_input == basis.recovery_input && facts.recovery_input_task == task_id
        && facts.workspace_task == task_id && facts.workspace_admitted_intent == basis.contract
        && facts.workspace_sir_input == material.recovery_input && facts.sir_task_bundle_matches
        && facts.workspace_coverage_policy == material.coverage_policy
        && facts.workspace_strategy_catalog == material.strategy_catalog) {
        Some(ControllerWorkflowError::BindingMismatch)
    } else {
        match facts.ledger_opened {
            None => Some(ControllerWorkflowError::Binding),
            Some(false) => Some(ControllerWorkflowError::BindingMismatch),
            Some(true) => None,
        }
    }
}

/// Opens the exact task-owned Oracle Exploration workspace and its initial obligation ledger
/// for the admitted intent the stream recovers (see `exploration_answer`).
pub fn open_oracle_exploration(
    task_id: u64,
    history: &Vec<RecordedControllerEventV1>,
    material: OracleExplorationMaterialV1,
    facts: OracleWorkspaceFactsV1,
    command_id: u64,
    observed_at: i64,
) -> (r: Result<ControllerWorkflowDecisionV1, ControllerWorkflowError>)
    ensures
        r == exploration_answer(task_id, history@, material, facts, command_id, observed_at),
{
    let state = match recover_controller_workflow(task_id, history) {
        Ok(state) => state,
        Err(e) => return Err(e),
    };
    let basis = match basis_of(&state) {
        Some(b) => b,
        None => return Err(ControllerWorkflowError::InvalidTransition),
    };
    if let Some(e) = check_exploration(task_id, basis, material, facts) {
        return Err(e);
    }
    let authority = FrozenOracleExplorationAuthorityV1 {
        task_id,
        admitted_intent_outcome: basis.outcome,
        admitted_intent: basis.contract,
        recovery_input: material.recovery_input,
        workspace: material.workspace,
        coverage_policy: material.coverage_policy,
        strategy_catalog: material.strategy_catalog,
        claims: basis.claims,
        ledger: material.ledger,
        ledger_revision: material.ledger_revision,
    };
    let event = ControllerWorkflowEventV1::OracleExplorationOpened(OracleExplorationOpenedPayload { authority });
    match open_recovered(task_id, history, state, command_id, observed_at, &event) {
        Err(answer) => answer,
        Ok(state) => close_command(task_id, history, state, command_id, observed_at, event),
    }
}

/// A precondition that a recomputed artifact exists (`Binding` otherwise) and is the presented
/// one (`BindingMismatch` otherwise).
pub open spec fn recomputed(expected: Option<u64>, presented: u64) -> Option<ControllerWorkflowError> {
    match expected {
        None => Some(ControllerWorkflowError::Binding),
        Some(e) => if e == presented { None } else { Some(ControllerWorkflowError::BindingMismatch) },
    }
}

fn check_recomputed(expected: Option<u64>, presented: u64) -> (r: Option<ControllerWorkflowError>)
    ensures
        r == recomputed(expected, presented),
{
    match expected {
        None => Some(ControllerWorkflowError::Binding),
        Some(e) => if e == presented { None } else { Some(ControllerWorkflowError::BindingMismatch) },
    }
}

/// Commits one exact strategy run and its running ledger revision before execution.
/// `started_ledger` is the ledger that starting the run yields, or `None` when the ledger
/// refuses the start.
pub fn authorize_oracle_strategy(
    task_id: u64,
    history: &Vec<RecordedControllerEventV1>,
    workspace: u64,
    catalog: u64,
    ledger: u64,
    ledger_revision: u64,
    run: u64,
    run_workspace: u64,
    started_ledger: Option<u64>,
    started_ledger_revision: u64,
    command_id: u64,
    observed_at: i64,
) -> (r: Result<ControllerWorkflowDecisionV1, ControllerWorkflowError>)
    ensures
        started_ledger is None ==> r == Err::<ControllerWorkflowDecisionV1, ControllerWorkflowError>(ControllerWorkflowError::Binding),
        started_ledger is Some ==> r == command_spec(task_id, history@, command_id, observed_at, None,
            ControllerWorkflowEventV1::OracleStrategyAuthorized(OracleStrategyAuthorizedPayload {
                workspace,
                catalog,
                previous_ledger: ledger,
                previous_ledger_revision: ledger_revision,
                run,
                run_workspace,
                started_ledger: started_ledger->0,
                started_ledger_revision,
                expected_started_ledger: started_ledger,
            }), no_refusal()),
{
    let started = match started_ledger {
        Some(s) => s,
        None => return Err(ControllerWorkflowError::Binding),
    };
    let event = ControllerWorkflowEventV1::OracleStrategyAuthorized(OracleStrategyAuthorizedPayload {
        workspace,
        catalog,
        previous_ledger: ledger,
        previous_ledger_revision: ledger_revision,
        run,
        run_workspace,
        started_ledger: started,
        started_ledger_revision,
        expected_started_ledger: started_ledger,
    });
    match open_command(task_id, history, command_id, observed_at, &event) {
        Err(answer) => answer,
        Ok(state) => close_command(task_id, history, state, command_id, observed_at, event),
    }
}

/// Projects Controller-produced effect observations into the active Oracle run.
/// `next_ledger` is the ledger the observations yield, or `None` when the ledger refuses them.
pub fn record_oracle_strategy_observations(
    task_id: u64,
    history: &Vec<RecordedControllerEventV1>,
    ledger: u64,
    ledger_revision: u64,
    run: u64,
    next_ledger: Option<u64>,
    next_ledger_revision: u64,
    command_id: u64,
    observed_at: i64,
) -> (r: Result<ControllerWorkflowDecisionV1, ControllerWorkflowError>)
    ensures
        next_ledger is None ==> r == Err::<ControllerWorkflowDecisionV1, ControllerWorkflowError>(ControllerWorkflowError::Binding),
        next_ledger is Some ==> r == command_spec(task_id, history@, command_id, observed_at, None,
            ControllerWorkflowEventV1::OracleStrategyObservationsRecorded(OracleStrategyObservationsRecordedPayload {
                previous_ledger: ledger,
                previous_ledger_revision: ledger_revision,
                run,
                next_ledger: next_ledger->0,
                next_ledger_revision,
                expected_next_ledger: next_ledger,
            }), no_refusal()),
{
    let next = match next_ledger {
        Some(n) => n,
        None => return Err(ControllerWorkflowError::Binding),
    };
    let event = ControllerWorkflowEventV1::OracleStrategyObservationsRecorded(OracleStrategyObservationsRecordedPayload {
        previous_ledger: ledger,
        previous_ledger_revision: ledger_revision,
        run,
        next_ledger: next,
        next_ledger_revision,
        expected_next_ledger: next_ledger,
    });
    match open_command(task_id, history, command_id, observed_at, &event) {
        Err(answer) => answer,
        Ok(state) => close_command(task_id, history, state, command_id, observed_at, event),
    }
}

/// Records one strict strategy submission and the resulting ledger revision. The completion's
/// evidence is first bound to the run it claims to complete.
pub fn record_oracle_strategy_completion(
    task_id: u64,
    history: &Vec<RecordedControllerEventV1>,
    workspace: u64,
    ledger: u64,
    ledger_revision: u64,
    run: u64,
    completion: &StrategyCompletionEvidenceV1,
    run_binding: &OracleStrategyRunBindingV1,
    next_ledger: Option<u64>,
    next_ledger_revision: u64,
    command_id: u64,
    observed_at: i64,
) -> (r: Result<ControllerWorkflowDecisionV1, ControllerWorkflowError>)
    ensures
        completion_binding(*completion, *run_binding) is Mismatch ==> r == Err::<ControllerWorkflowDecisionV1, ControllerWorkflowError>(
            ControllerWorkflowError::BindingMismatch,
        ),
        completion_binding(*completion, *run_binding) is Invalid ==> r == Err::<ControllerWorkflowDecisionV1, ControllerWorkflowError>(
            ControllerWorkflowError::Binding,
        ),
        completion_binding(*completion, *run_binding) is Bound && next_ledger is None ==> r == Err::<
            ControllerWorkflowDecisionV1,
            ControllerWorkflowError,
        >(ControllerWorkflowError::Binding),
        completion_binding(*completion, *run_binding) is Bound && next_ledger is Some ==> r == command_spec(task_id, history@, command_id, observed_at, None,
            ControllerWorkflowEventV1::OracleStrategySubmissionRecorded(OracleStrategySubmissionRecordedPayload {
                workspace,
                previous_ledger: ledger,
                previous_ledger_revision: ledger_revision,
                run,
                completion: CompletionBindingV1::Bound,
                next_ledger: next_ledger->0,
                next_ledger_revision,
                expected_next_ledger: next_ledger,
            }), no_refusal()),
{
    let binding = bind_strategy_completion(completion, run_binding);
    match binding {
        CompletionBindingV1::Mismatch => return Err(ControllerWorkflowError::BindingMismatch),
        CompletionBindingV1::Invalid => return Err(ControllerWorkflowError::Binding),
        CompletionBindingV1::Bound => {},
    }
    let next = match next_ledger {
        Some(n) => n,
        None => return Err(ControllerWorkflowError::Binding),
    };
    let event = ControllerWorkflowEventV1::OracleStrategySubmissionRecorded(OracleStrategySubmissionRecordedPayload {
        workspace,
        previous_ledger: ledger,
        previous_ledger_revision: ledger_revision,
        run,
        completion: binding,
        next_ledger: next,
        next_ledger_revision,
        expected_next_ledger: next_ledger,
    });
    match open_command(task_id, history, command_id, observed_at, &event) {
        Err(answer) => answer,
        Ok(state) => close_command(task_id, history, state, command_id, observed_at, event),
    }
}

/// Freezes a terminal exploration ledger as the exact independent Admission candidate.
/// `expected_proposal` is the portfolio frozen from the ledger, or `None` when the ledger
/// cannot be frozen.
pub fn freeze_oracle_portfolio(
    task_id: u64,
    history: &Vec<RecordedControllerEventV1>,
    ledger: u64,
    ledger_revision: u64,
    proposal: u64,
    expected_proposal: Option<u64>,
    policy: u64,
    policy_is_strict: bool,
    command_id: u64,
    observed_at: i64,
) -> (r: Result<ControllerWorkflowDecisionV1, ControllerWorkflowError>)
    ensures
        r == command_spec(task_id, history@, command_id, observed_at,
            match recomputed(expected_proposal, proposal) {
                Some(e) => Some(e),
                None => if policy_is_strict { None } else { Some(ControllerWorkflowError::BindingMismatch) },
            },
            ControllerWorkflowEventV1::OraclePortfolioFrozen(OraclePortfolioFrozenPayload {
                ledger,
                ledger_revision,
                proposal,
                expected_proposal,
                policy,
                policy_is_strict,
            }), no_refusal()),
{
    if let Some(e) = check_recomputed(expected_proposal, proposal) {
        return Err(e);
    }
    if !policy_is_strict {
        return Err(ControllerWorkflowError::BindingMismatch);
    }
    let event = ControllerWorkflowEventV1::OraclePortfolioFrozen(OraclePortfolioFrozenPayload {
        ledger,
        ledger_revision,
        proposal,
        expected_proposal,
        policy,
        policy_is_strict,
    });
    match open_command(task_id, history, command_id, observed_at, &event) {
        Err(answer) => answer,
        Ok(state) => close_command(task_id, history, state, command_id, observed_at, event),
    }
}

/// Freezes the exact qualified mechanisms and the mechanically derived admission attempt.
pub fn authorize_oracle_admission(
    task_id: u64,
    history: &Vec<RecordedControllerEventV1>,
    proposal: u64,
    policy: u64,
    mechanisms: u64,
    attempt: u64,
    expected_attempt: Option<u64>,
    command_id: u64,
    observed_at: i64,
) -> (r: Result<ControllerWorkflowDecisionV1, ControllerWorkflowError>)
    ensures
        r == command_spec(task_id, history@, command_id, observed_at, recomputed(expected_attempt, attempt),
            ControllerWorkflowEventV1::OracleAdmissionAuthorized(OracleAdmissionAuthorizedPayload {
                proposal,
                policy,
                mechanisms,
                attempt,
                expected_attempt,
            }), no_refusal()),
{
    if let Some(e) = check_recomputed(expected_attempt, attempt) {
        return Err(e);
    }
    let event = ControllerWorkflowEventV1::OracleAdmissionAuthorized(OracleAdmissionAuthorizedPayload {
        proposal,
        policy,
        mechanisms,
        attempt,
        expected_attempt,
    });
    match open_command(task_id, history, command_id, observed_at, &event) {
        Err(answer) => answer,
        Ok(state) => close_command(task_id, history, state, command_id, observed_at, event),
    }
}

/// Refusal of an Oracle control authorization that does not bind to the admission attempt.
pub open spec fn control_refusal(
    mechanisms: u64,
    attempt: u64,
    obligation_item: u64,
    obligation_control: u64,
) -> spec_fn(ControllerWorkflowStateV1) -> Option<ControllerWorkflowError> {
    |s: ControllerWorkflowStateV1| match s {
        ControllerWorkflowStateV1::OracleAdmissionAuthorized(a) =>
            if mechanisms == a.mechanisms && attempt == a.attempt {
                None
            } else {
                Some(ControllerWorkflowError::BindingMismatch)
            },
        ControllerWorkflowStateV1::OracleControlsObserved { authority, receipts } =>
            if mechanisms == authority.mechanisms && attempt == authority.attempt
                && !receipts.covers(obligation_item, obligation_control) {
                None
            } else {
                Some(ControllerWorkflowError::BindingMismatch)
            },
        _ => None,
    }
}

/// The state-independent checks of an Oracle control authorization.
pub open spec fn control_precondition(
    run: u64,
    attempt: u64,
    dispatch_bound: bool,
    dispatch_run: u64,
    run_attempt: u64,
    expected_run: Option<u64>,
    evidence_admissible: bool,
) -> Option<ControllerWorkflowError> {
    if !dispatch_bound || expected_run is None {
        Some(ControllerWorkflowError::Binding)
    } else if run_attempt != attempt || dispatch_run != run || expected_run != Some(run) {
        Some(ControllerWorkflowError::BindingMismatch)
    } else if !evidence_admissible {
        Some(ControllerWorkflowError::Binding)
    } else {
        None
    }
}

/// Commits durable start authority for one exact qualified Oracle control.
/// `expected_run` is the run derived from the attempt, the catalog, and the obligation, or
/// `None` when it cannot be derived; `evidence_admissible` states that the receipts observed
/// so far still form admissible evidence for the attempt.
pub fn authorize_oracle_control(
    task_id: u64,
    history: &Vec<RecordedControllerEventV1>,
    mechanisms: u64,
    attempt: u64,
    run: u64,
    dispatch: u64,
    dispatch_bound: bool,
    dispatch_run: u64,
    run_attempt: u64,
    expected_run: Option<u64>,
    evidence_admissible: bool,
    obligation_item: u64,
    obligation_control: u64,
    command_id: u64,
    observed_at: i64,
) -> (r: Result<ControllerWorkflowDecisionV1, ControllerWorkflowError>)
    ensures
        r == command_spec(task_id, history@, command_id, observed_at,
            control_precondition(run, attempt, dispatch_bound, dispatch_run, run_attempt, expected_run, evidence_admissible),
            ControllerWorkflowEventV1::OracleControlAuthorized(OracleControlAuthorizedPayload {
                run,
                dispatch,
                expected_run,
                dispatch_bound,
                dispatch_run,
                evidence_admissible,
                obligation_item,
                obligation_control,
            }), control_refusal(mechanisms, attempt, obligation_item, obligation_control)),
{
    if !dispatch_bound || expected_run.is_none() {
        return Err(ControllerWorkflowError::Binding);
    }
    let matches_run = match expected_run {
        Some(e) => e == run,
        None => false,
    };
    if run_attempt != attempt || dispatch_run != run || !matches_run {
        return Err(ControllerWorkflowError::BindingMismatch);
    }
    if !evidence_admissible {
        return Err(ControllerWorkflowError::Binding);
    }
    let event = ControllerWorkflowEventV1::OracleControlAuthorized(OracleControlAuthorizedPayload {
        run,
        dispatch,
        expected_run,
        dispatch_bound,
        dispatch_run,
        evidence_admissible,
        obligation_item,
        obligation_control,
    });
    match open_command(task_id, history, command_id, observed_at, &event) {
        Err(answer) => answer,
        Ok(state) => {
            let refused = match &state {
                ControllerWorkflowStateV1::OracleAdmissionAuthorized(a) => !(mechanisms == a.mechanisms && attempt == a.attempt),
                ControllerWorkflowStateV1::OracleControlsObserved { authority, receipts } =>
                    !(mechanisms == authority.mechanisms && attempt == authority.attempt
                        && !receipts.has_cell(obligation_item, obligation_control)),
                _ => false,
            };
            if refused {
                Err(ControllerWorkflowError::BindingMismatch)
            } else {
                close_command(task_id, history, state, command_id, observed_at, event)
            }
        },
    }
}

/// Refusal of an Oracle control observation that does not bind to the authorized run, checked
/// in order: the run and dispatch must be the authorized ones and the receipt must name the
/// admitted proposal; the receipt must be derivable from the observation, be the presented one,
/// and cover a cell no earlier receipt covers.
pub open spec fn observation_refusal(
    run: u64,
    dispatch: u64,
    receipt: OracleControlReceiptV1,
    receipt_proposal: u64,
    expected_receipt: Option<OracleControlReceiptV1>,
) -> spec_fn(ControllerWorkflowStateV1) -> Option<ControllerWorkflowError> {
    |s: ControllerWorkflowStateV1| match s {
        ControllerWorkflowStateV1::OracleControlAuthorized { authority, previous_receipts } =>
            if !(run == authority.run && dispatch == authority.dispatch
                && receipt_proposal == authority.admission.portfolio.proposal) {
                Some(ControllerWorkflowError::BindingMismatch)
            } else if expected_receipt is None {
                Some(ControllerWorkflowError::Binding)
            } else if expected_receipt == Some(receipt) && !previous_receipts.covers(receipt.item, receipt.control) {
                None
            } else {
                Some(ControllerWorkflowError::BindingMismatch)
            },
        _ => None,
    }
}

/// Records the trusted observation produced by the exact authorized Oracle control dispatch.
/// `expected_receipt` is the receipt derived from the trusted observation, or `None` when it
/// cannot be derived.
pub fn record_oracle_control_observation(
    task_id: u64,
    history: &Vec<RecordedControllerEventV1>,
    run: u64,
    dispatch: u64,
    dispatch_bound: bool,
    observation_bound: bool,
    receipt: OracleControlReceiptV1,
    receipt_proposal: u64,
    expected_receipt: Option<OracleControlReceiptV1>,
    run_attempt: u64,
    command_id: u64,
    observed_at: i64,
) -> (r: Result<ControllerWorkflowDecisionV1, ControllerWorkflowError>)
    ensures
        r == command_spec(task_id, history@, command_id, observed_at,
            if dispatch_bound && observation_bound { None } else { Some(ControllerWorkflowError::Binding) },
            ControllerWorkflowEventV1::OracleControlObserved(OracleControlObservedPayload {
                run,
                dispatch,
                dispatch_bound,
                observation_bound,
                receipt,
                expected_receipt,
                run_attempt,
            }), observation_refusal(run, dispatch, receipt, receipt_proposal, expected_receipt)),
{
    if !dispatch_bound || !observation_bound {
        return Err(ControllerWorkflowError::Binding);
    }
    let event = ControllerWorkflowEventV1::OracleControlObserved(OracleControlObservedPayload {
        run,
        dispatch,
        dispatch_bound,
        observation_bound,
        receipt,
        expected_receipt,
        run_attempt,
    });
    match open_command(task_id, history, command_id, observed_at, &event) {
        Err(answer) => answer,
        Ok(state) => {
            let refused = match &state {
                ControllerWorkflowStateV1::OracleControlAuthorized { authority, previous_receipts } => {
                    if !(run == authority.run && dispatch == authority.dispatch
                        && receipt_proposal == authority.admission.portfolio.proposal) {
                        Some(ControllerWorkflowError::BindingMismatch)
                    } else {
                        match expected_receipt {
                            None => Some(ControllerWorkflowError::Binding),
                            Some(expected) => if expected == receipt
                                && !previous_receipts.has_cell(receipt.item, receipt.control) {
                                None
                            } else {
                                Some(ControllerWorkflowError::BindingMismatch)
                            },
                        }
                    }
                },
                _ => None,
            };
            match refused {
                Some(e) => Err(e),
                None => close_command(task_id, history, state, command_id, observed_at, event),
            }
        },
    }
}

/// Records trusted control evidence and the independently recomputed Oracle outcome.
pub fn record_oracle_admission_outcome(
    task_id: u64,
    history: &Vec<RecordedControllerEventV1>,
    proposal: u64,
    policy: u64,
    mechanisms: u64,
    attempt: u64,
    evidence: u64,
    evidence_receipts: ReceiptList,
    outcome: u64,
    expected_outcome: Option<u64>,
    command_id: u64,
    observed_at: i64,
) -> (r: Result<ControllerWorkflowDecisionV1, ControllerWorkflowError>)
    ensures
        r == command_spec(task_id, history@, command_id, observed_at, recomputed(expected_outcome, outcome),
            ControllerWorkflowEventV1::OracleAdmissionRecorded(OracleAdmissionRecordedPayload {
                proposal,
                policy,
                mechanisms,
                attempt,
                evidence,
                evidence_receipts,
                outcome,
                expected_outcome,
            }), no_refusal()),
{
    if let Some(e) = check_recomputed(expected_outcome, outcome) {
        return Err(e);
    }
    let event = ControllerWorkflowEventV1::OracleAdmissionRecorded(OracleAdmissionRecordedPayload {
        proposal,
        policy,
        mechanisms,
        attempt,
        evidence,
        evidence_receipts,
        outcome,
        expected_outcome,
    });
    match open_command(task_id, history, command_id, observed_at, &event) {
        Err(answer) => answer,
        Ok(state) => close_command(task_id, history, state, command_id, observed_at, event),
    }
}

/// Freezes the Candidate Oracle contract and workspace derived from the admitted Oracle.
pub fn freeze_candidate_oracle_contract(
    task_id: u64,
    history: &Vec<RecordedControllerEventV1>,
    oracle_workspace: u64,
    proposal: u64,
    outcome: u64,
    contract: u64,
    expected_contract: Option<u64>,
    workspace: u64,
    expected_workspace: Option<u64>,
    command_id: u64,
    observed_at: i64,
) -> (r: Result<ControllerWorkflowDecisionV1, ControllerWorkflowError>)
    ensures
        r == command_spec(task_id, history@, command_id, observed_at,
            match recomputed(expected_contract, contract) {
                Some(e) => Some(e),
                None => recomputed(expected_workspace, workspace),
            },
            ControllerWorkflowEventV1::CandidateOracleContractFrozen(CandidateOracleContractFrozenPayload {
                proposal,
                oracle_workspace,
                outcome,
                contract,
                expected_contract,
                workspace,
                expected_workspace,
            }), no_refusal()),
{
    if let Some(e) = check_recomputed(expected_contract, contract) {
        return Err(e);
    }
    if let Some(e) = check_recomputed(expected_workspace, workspace) {
        return Err(e);
    }
    let event = ControllerWorkflowEventV1::CandidateOracleContractFrozen(CandidateOracleContractFrozenPayload {
        proposal,
        oracle_workspace,
        outcome,
        contract,
        expected_contract,
        workspace,
        expected_workspace,
    });
    match open_command(task_id, history, command_id, observed_at, &event) {
        Err(answer) => answer,
        Ok(state) => close_command(task_id, history, state, command_id, observed_at, event),
    }
}

/// Freezes the exact Candidate proposal-step request.
pub fn freeze_candidate_proposal_request(
    task_id: u64,
    history: &Vec<RecordedControllerEventV1>,
    request_id: u64,
    request_identity: u64,
    request_facts: CandidateRequestFactsV1,
    episode_id: u64,
    command_id: u64,
    observed_at: i64,
) -> (r: Result<ControllerWorkflowDecisionV1, ControllerWorkflowError>)
    ensures
        r == command_spec(task_id, history@, command_id, observed_at,
            if request_identity == request_id { None } else { Some(ControllerWorkflowError::BindingMismatch) },
            ControllerWorkflowEventV1::CandidateProposalRequestFrozen(CandidateProposalRequestFrozenPayload {
                request_id,
                request_identity,
                request_facts,
                episode_id,
            }), no_refusal()),
{
    if request_identity != request_id {
        return Err(ControllerWorkflowError::BindingMismatch);
    }
    let event = ControllerWorkflowEventV1::CandidateProposalRequestFrozen(CandidateProposalRequestFrozenPayload {
        request_id,
        request_identity,
        request_facts,
        episode_id,
    });
    match open_command(task_id, history, command_id, observed_at, &event) {
        Err(answer) => answer,
        Ok(state) => close_command(task_id, history, state, command_id, observed_at, event),
    }
}

/// Commits start authority for the frozen Candidate proposal episode.
pub fn authorize_candidate_proposal_episode(
    task_id: u64,
    history: &Vec<RecordedControllerEventV1>,
    request: u64,
    command_id: u64,
    observed_at: i64,
) -> (r: Result<ControllerWorkflowDecisionV1, ControllerWorkflowError>)
    ensures
        r == command_spec(task_id, history@, command_id, observed_at, None,
            ControllerWorkflowEventV1::CandidateProposalEpisodeAuthorized(CandidateProposalEpisodeAuthorizedPayload { request }),
            no_refusal()),
{
    let event = ControllerWorkflowEventV1::CandidateProposalEpisodeAuthorized(
        CandidateProposalEpisodeAuthorizedPayload { request },
    );
    match open_command(task_id, history, command_id, observed_at, &event) {
        Err(answer) => answer,
        Ok(state) => close_command(task_id, history, state, command_id, observed_at, event),
    }
}

/// Records the Candidate proposal published by the authorized episode's terminal.
pub fn record_candidate_proposal(
    task_id: u64,
    history: &Vec<RecordedControllerEventV1>,
    request_id: u64,
    request_identity: u64,
    terminal_id: u64,
    terminal_identity: u64,
    terminal_bound: bool,
    terminal_episode: u64,
    request_facts: CandidateRequestFactsV1,
    published_proposal: Option<u64>,
    command_id: u64,
    observed_at: i64,
) -> (r: Result<ControllerWorkflowDecisionV1, ControllerWorkflowError>)
    ensures
        r == command_spec(task_id, history@, command_id, observed_at,
            if request_identity == request_id && terminal_identity == terminal_id && terminal_bound
                && published_proposal is Some {
                None
            } else {
                Some(ControllerWorkflowError::BindingMismatch)
            },
            ControllerWorkflowEventV1::CandidateProposalRecorded(CandidateProposalRecordedPayload {
                request_id,
                request_identity,
                terminal_id,
                terminal_identity,
                terminal_bound,
                terminal_episode,
                request_facts,
                published_proposal,
            }), no_refusal()),
{
    if !(request_identity == request_id && terminal_identity == terminal_id && terminal_bound
        && published_proposal.is_some()) {
        return Err(ControllerWorkflowError::BindingMismatch);
    }
    let event = ControllerWorkflowEventV1::CandidateProposalRecorded(CandidateProposalRecordedPayload {
        request_id,
        request_identity,
        terminal_id,
        terminal_identity,
        terminal_bound,
        terminal_episode,
        request_facts,
        published_proposal,
    });
    match open_command(task_id, history, command_id, observed_at, &event) {
        Err(answer) => answer,
        Ok(state) => close_command(task_id, history, state, command_id, observed_at, event),
    }
}

/// Refusal of a Candidate build that names another proposal or contract.
pub open spec fn build_refusal(proposal_id: u64, proposal_contract: u64) -> spec_fn(ControllerWorkflowStateV1) -> Option<ControllerWorkflowError> {
    |s: ControllerWorkflowStateV1| match s {
        ControllerWorkflowStateV1::CandidateProposed { authority, proposal, .. } =>
            if proposal == proposal_id && proposal_contract == authority.candidate.contract {
                None
            } else {
                Some(ControllerWorkflowError::BindingMismatch)
            },
        _ => None,
    }
}

/// Freezes the Candidate build plan and request for the recorded proposal.
pub fn freeze_candidate_build(
    task_id: u64,
    history: &Vec<RecordedControllerEventV1>,
    proposal_id: u64,
    proposal_contract: u64,
    plan: u64,
    request: u64,
    request_proposal: u64,
    request_plan: u64,
    command_id: u64,
    observed_at: i64,
) -> (r: Result<ControllerWorkflowDecisionV1, ControllerWorkflowError>)
    ensures
        r == command_spec(task_id, history@, command_id, observed_at,
            if request_proposal == proposal_id && request_plan == plan { None } else { Some(ControllerWorkflowError::BindingMismatch) },
            ControllerWorkflowEventV1::CandidateBuildFrozen(CandidateBuildFrozenPayload { plan, request, request_proposal, request_plan }),
            build_refusal(proposal_id, proposal_contract)),
{
    if request_proposal != proposal_id || request_plan != plan {
        return Err(ControllerWorkflowError::BindingMismatch);
    }
    let event = ControllerWorkflowEventV1::CandidateBuildFrozen(CandidateBuildFrozenPayload {
        plan,
        request,
        request_proposal,
        request_plan,
    });
    match open_command(task_id, history, command_id, observed_at, &event) {
        Err(answer) => answer,
        Ok(state) => {
            let refused = match &state {
                ControllerWorkflowStateV1::CandidateProposed { authority, proposal, .. } =>
                    !(*proposal == proposal_id && proposal_contract == authority.candidate.contract),
                _ => false,
            };
            if refused {
                Err(ControllerWorkflowError::BindingMismatch)
            } else {
                close_command(task_id, history, state, command_id, observed_at, event)
            }
        },
    }
}

/// Commits start authority for the frozen Candidate build.
pub fn authorize_candidate_build(
    task_id: u64,
    history: &Vec<RecordedControllerEventV1>,
    request: u64,
    command_id: u64,
    observed_at: i64,
) -> (r: Result<ControllerWorkflowDecisionV1, ControllerWorkflowError>)
    ensures
        r == command_spec(task_id, history@, command_id, observed_at, None,
            ControllerWorkflowEventV1::CandidateBuildAuthorized(CandidateBuildAuthorizedPayload { request }), no_refusal()),
{
    let event = ControllerWorkflowEventV1::CandidateBuildAuthorized(CandidateBuildAuthorizedPayload { request });
    match open_command(task_id, history, command_id, observed_at, &event) {
        Err(answer) => answer,
        Ok(state) => close_command(task_id, history, state, command_id, observed_at, event),
    }
}

/// Records the execution receipt of the authorized Candidate build.
pub fn record_candidate_build_observation(
    task_id: u64,
    history: &Vec<RecordedControllerEventV1>,
    payload: CandidateBuildObservedPayload,
    command_id: u64,
    observed_at: i64,
) -> (r: Result<ControllerWorkflowDecisionV1, ControllerWorkflowError>)
    ensures
        r == command_spec(task_id, history@, command_id, observed_at,
            if payload.receipt_identity == payload.receipt_id && payload.receipt_job == payload.request_job
                && payload.receipt_contract == payload.request_contract {
                None
            } else {
                Some(ControllerWorkflowError::BindingMismatch)
            },
            ControllerWorkflowEventV1::CandidateBuildObserved(payload), no_refusal()),
{
    if !(payload.receipt_identity == payload.receipt_id && payload.receipt_job == payload.request_job
        && payload.receipt_contract == payload.request_contract) {
        return Err(ControllerWorkflowError::BindingMismatch);
    }
    let event = ControllerWorkflowEventV1::CandidateBuildObserved(payload);
    match open_command(task_id, history, command_id, observed_at, &event) {
        Err(answer) => answer,
        Ok(state) => close_command(task_id, history, state, command_id, observed_at, event),
    }
}

/// Commits the Candidate admission attempt derived from the contract, proposal, and mechanisms.
pub fn authorize_candidate_admission(
    task_id: u64,
    history: &Vec<RecordedControllerEventV1>,
    payload: CandidateAdmissionAuthorizedPayload,
    command_id: u64,
    observed_at: i64,
) -> (r: Result<ControllerWorkflowDecisionV1, ControllerWorkflowError>)
    ensures
        r == command_spec(task_id, history@, command_id, observed_at, recomputed(payload.expected_attempt, payload.attempt),
            ControllerWorkflowEventV1::CandidateAdmissionAuthorized(payload), no_refusal()),
{
    if let Some(e) = check_recomputed(payload.expected_attempt, payload.attempt) {
        return Err(e);
    }
    let event = ControllerWorkflowEventV1::CandidateAdmissionAuthorized(payload);
    match open_command(task_id, history, command_id, observed_at, &event) {
        Err(answer) => answer,
        Ok(state) => close_command(task_id, history, state, command_id, observed_at, event),
    }
}

/// Records the independently recomputed Candidate admission outcome and the terminal status.
pub fn record_candidate_admission_outcome(
    task_id: u64,
    history: &Vec<RecordedControllerEventV1>,
    payload: CandidateAdmissionRecordedPayload,
    command_id: u64,
    observed_at: i64,
) -> (r: Result<ControllerWorkflowDecisionV1, ControllerWorkflowError>)
    ensures
        r == command_spec(task_id, history@, command_id, observed_at, recomputed(payload.expected_outcome, payload.outcome),
            ControllerWorkflowEventV1::CandidateAdmissionRecorded(payload), no_refusal()),
{
    if let Some(e) = check_recomputed(payload.expected_outcome, payload.outcome) {
        return Err(e);
    }
    let event = ControllerWorkflowEventV1::CandidateAdmissionRecorded(payload);
    match open_command(task_id, history, command_id, observed_at, &event) {
        Err(answer) => answer,
        Ok(state) => close_command(task_id, history, state, command_id, observed_at, event),
    }
}

} // verus!
