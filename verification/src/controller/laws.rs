use vstd::prelude::*;

use crate::controller::decide::{
    ControllerWorkflowAppendV1, ControllerWorkflowDecisionV1, arc, command_spec, open_spec,
};
use crate::controller::events::{ControllerWorkflowError, ControllerWorkflowEventV1};
use crate::controller::recover::{
    RecordedControllerEventV1, first_command_from, head_of, lemma_replay_error_persists, prior_command, replay,
};
use crate::controller::state::{ControllerWorkflowNextActionV1, ControllerWorkflowStateV1, next_action_of};
use crate::controller::transition::{terminal_status_of, transition};
use crate::controller::types::{MigrationTerminalStatusV1, ReceiptList};

verus! {

/// The current-V1 fact that records an accepted command decision under `event_id`.
pub open spec fn committed(append: ControllerWorkflowAppendV1, event_id: u64) -> RecordedControllerEventV1 {
    RecordedControllerEventV1 {
        event_id,
        parent_event_id: append.parent_event_id,
        schema_version: 1,
        command_id: append.command_id,
        observed_at: append.observed_at,
        event: append.event,
    }
}

/// The task named by the frozen authority a state carries, if it carries one.
pub open spec fn state_task(state: ControllerWorkflowStateV1) -> Option<u64> {
    match state {
        ControllerWorkflowStateV1::NotFound | ControllerWorkflowStateV1::Cancelled => None,
        ControllerWorkflowStateV1::Frozen(a) | ControllerWorkflowStateV1::SirEpisodeAuthorized(a) => Some(a.task_id),
        ControllerWorkflowStateV1::SirProposed { authority, .. }
        | ControllerWorkflowStateV1::AwaitingUserIntentDecision { authority, .. }
        | ControllerWorkflowStateV1::UserIntentDecisionRecorded { authority, .. }
        | ControllerWorkflowStateV1::IntentAdmissionAuthorized { authority, .. }
        | ControllerWorkflowStateV1::IntentAdmissionBlocked { authority, .. }
        | ControllerWorkflowStateV1::AdmittedIntent { authority, .. } => Some(authority.task_id),
        ControllerWorkflowStateV1::OracleExplorationOpened(a) => Some(a.task_id),
        ControllerWorkflowStateV1::OracleStrategyAuthorized(a) => Some(a.exploration.task_id),
        ControllerWorkflowStateV1::OraclePortfolioFrozen(a) => Some(a.exploration.task_id),
        ControllerWorkflowStateV1::OracleAdmissionAuthorized(a) => Some(a.portfolio.exploration.task_id),
        ControllerWorkflowStateV1::OracleControlAuthorized { authority, .. } =>
            Some(authority.admission.portfolio.exploration.task_id),
        ControllerWorkflowStateV1::OracleControlsObserved { authority, .. }
        | ControllerWorkflowStateV1::OracleAdmitted { authority, .. } => Some(authority.portfolio.exploration.task_id),
        ControllerWorkflowStateV1::CandidateOracleContractFrozen(a) => Some(a.oracle.portfolio.exploration.task_id),
        ControllerWorkflowStateV1::CandidateProposalRequestFrozen(a)
        | ControllerWorkflowStateV1::CandidateProposalEpisodeAuthorized(a) =>
            Some(a.candidate.oracle.portfolio.exploration.task_id),
        ControllerWorkflowStateV1::CandidateProposed { authority, .. } =>
            Some(authority.candidate.oracle.portfolio.exploration.task_id),
        ControllerWorkflowStateV1::CandidateBuildFrozen(a) | ControllerWorkflowStateV1::CandidateBuildAuthorized(a) =>
            Some(a.candidate.candidate.oracle.portfolio.exploration.task_id),
        ControllerWorkflowStateV1::CandidateBuildObserved { authority, .. } =>
            Some(authority.candidate.candidate.oracle.portfolio.exploration.task_id),
        ControllerWorkflowStateV1::CandidateAdmissionAuthorized(a) =>
            Some(a.build.candidate.candidate.oracle.portfolio.exploration.task_id),
        ControllerWorkflowStateV1::Terminal { authority, .. } =>
            Some(authority.build.candidate.candidate.oracle.portfolio.exploration.task_id),
    }
}

/// Whether a state belongs to `task_id`: it carries no authority, or its authority names the task.
pub open spec fn owned_by(task_id: u64, state: ControllerWorkflowStateV1) -> bool {
    match state_task(state) {
        None => true,
        Some(t) => t == task_id,
    }
}

proof fn lemma_first_command_range(history: Seq<RecordedControllerEventV1>, command_id: u64, from: int)
    requires
        0 <= from,
    ensures
        first_command_from(history, command_id, from) == -1
            || from <= first_command_from(history, command_id, from) < history.len(),
    decreases history.len() - from,
{
    if from < history.len() {
        lemma_first_command_range(history, command_id, from + 1);
    }
}

proof fn lemma_first_command_after_push(
    history: Seq<RecordedControllerEventV1>,
    recorded: RecordedControllerEventV1,
    from: int,
)
    requires
        0 <= from <= history.len(),
        first_command_from(history, recorded.command_id, from) == -1,
    ensures
        first_command_from(history.push(recorded), recorded.command_id, from) == history.len(),
    decreases history.len() - from,
{
    if from < history.len() {
        lemma_first_command_after_push(history, recorded, from + 1);
    }
}

/// An accepted command extends the stream exactly at its head, and recovering the extended
/// stream yields exactly the state the decision announced.
pub proof fn lemma_accepted_command_recovers(
    task_id: u64,
    history: Seq<RecordedControllerEventV1>,
    command_id: u64,
    observed_at: i64,
    precondition: Option<ControllerWorkflowError>,
    event: ControllerWorkflowEventV1,
    refusal: spec_fn(ControllerWorkflowStateV1) -> Option<ControllerWorkflowError>,
    event_id: u64,
)
    requires
        command_spec(task_id, history, command_id, observed_at, precondition, event, refusal) is Ok,
        command_spec(task_id, history, command_id, observed_at, precondition, event, refusal)->Ok_0 is Append,
    ensures
        ({
            let append = command_spec(task_id, history, command_id, observed_at, precondition, event, refusal)->Ok_0->Append_0;
            &&& append.parent_event_id == head_of(history)
            &&& append.command_id == command_id
            &&& append.observed_at == observed_at
            &&& append.event == event
            &&& replay(task_id, history) is Ok
            &&& replay(task_id, history.push(committed(append, event_id)))
                == Ok::<ControllerWorkflowStateV1, ControllerWorkflowError>(append.next)
        }),
{
    let append = command_spec(task_id, history, command_id, observed_at, precondition, event, refusal)->Ok_0->Append_0;
    let extended = history.push(committed(append, event_id));
    assert(extended.drop_last() == history);
}

/// A fact whose command checks passed but which the reducer refuses is recorded at the head of
/// the stream, and recovering the extended stream fails with exactly the error the decision
/// announced.
pub proof fn lemma_rejected_fact_fails_recovery(
    task_id: u64,
    history: Seq<RecordedControllerEventV1>,
    command_id: u64,
    observed_at: i64,
    precondition: Option<ControllerWorkflowError>,
    event: ControllerWorkflowEventV1,
    refusal: spec_fn(ControllerWorkflowStateV1) -> Option<ControllerWorkflowError>,
    event_id: u64,
)
    requires
        command_spec(task_id, history, command_id, observed_at, precondition, event, refusal) is Ok,
        command_spec(task_id, history, command_id, observed_at, precondition, event, refusal)->Ok_0 is AppendRejected,
    ensures
        ({
            let rejected = command_spec(task_id, history, command_id, observed_at, precondition, event, refusal)->Ok_0->AppendRejected_0;
            let recorded = RecordedControllerEventV1 {
                event_id,
                parent_event_id: rejected.parent_event_id,
                schema_version: 1,
                command_id,
                observed_at,
                event,
            };
            &&& rejected.parent_event_id == head_of(history)
            &&& rejected.event == event
            &&& replay(task_id, history.push(recorded))
                == Err::<ControllerWorkflowStateV1, ControllerWorkflowError>(rejected.error)
        }),
{
    let rejected = command_spec(task_id, history, command_id, observed_at, precondition, event, refusal)->Ok_0->AppendRejected_0;
    let recorded = RecordedControllerEventV1 {
        event_id,
        parent_event_id: rejected.parent_event_id,
        schema_version: 1,
        command_id,
        observed_at,
        event,
    };
    assert(history.push(recorded).drop_last() == history);
}

/// Reissuing an accepted command with the same identity, time and event after its fact was
/// recorded is an idempotent replay answering the state that fact produced.
pub proof fn lemma_accepted_command_replays(
    task_id: u64,
    history: Seq<RecordedControllerEventV1>,
    command_id: u64,
    observed_at: i64,
    precondition: Option<ControllerWorkflowError>,
    event: ControllerWorkflowEventV1,
    refusal: spec_fn(ControllerWorkflowStateV1) -> Option<ControllerWorkflowError>,
    event_id: u64,
)
    requires
        command_spec(task_id, history, command_id, observed_at, precondition, event, refusal) is Ok,
        command_spec(task_id, history, command_id, observed_at, precondition, event, refusal)->Ok_0 is Append,
    ensures
        ({
            let append = command_spec(task_id, history, command_id, observed_at, precondition, event, refusal)->Ok_0->Append_0;
            command_spec(task_id, history.push(committed(append, event_id)), command_id, observed_at, precondition, event, refusal)
                == Ok::<ControllerWorkflowDecisionV1, ControllerWorkflowError>(ControllerWorkflowDecisionV1::Replayed(append.next))
        }),
{
    let append = command_spec(task_id, history, command_id, observed_at, precondition, event, refusal)->Ok_0->Append_0;
    let recorded = committed(append, event_id);
    let extended = history.push(recorded);
    lemma_accepted_command_recovers(task_id, history, command_id, observed_at, precondition, event, refusal, event_id);
    lemma_first_command_range(history, command_id, 0);
    lemma_first_command_after_push(history, recorded, 0);
    assert(prior_command(extended, command_id) == history.len());
    assert(extended[history.len() as int] == recorded);
}

/// Once a command has succeeded, with a new fact that was then recorded or as a replay,
/// reissuing it with the same identity, time and event replays the current state, and reissuing
/// it with the same identity at another time is a command conflict.
pub proof fn lemma_succeeded_command_replays_or_conflicts(
    task_id: u64,
    history: Seq<RecordedControllerEventV1>,
    command_id: u64,
    observed_at: i64,
    other_time: i64,
    precondition: Option<ControllerWorkflowError>,
    event: ControllerWorkflowEventV1,
    refusal: spec_fn(ControllerWorkflowStateV1) -> Option<ControllerWorkflowError>,
    event_id: u64,
)
    requires
        command_spec(task_id, history, command_id, observed_at, precondition, event, refusal) is Ok,
        !(command_spec(task_id, history, command_id, observed_at, precondition, event, refusal)->Ok_0 is AppendRejected),
        other_time != observed_at,
    ensures
        ({
            let decision = command_spec(task_id, history, command_id, observed_at, precondition, event, refusal)->Ok_0;
            let after = match decision {
                ControllerWorkflowDecisionV1::Append(append) => history.push(committed(append, event_id)),
                _ => history,
            };
            let state = match decision {
                ControllerWorkflowDecisionV1::Append(append) => append.next,
                ControllerWorkflowDecisionV1::Replayed(state) => state,
                ControllerWorkflowDecisionV1::AppendRejected(_) => ControllerWorkflowStateV1::NotFound,
            };
            &&& command_spec(task_id, after, command_id, observed_at, precondition, event, refusal)
                == Ok::<ControllerWorkflowDecisionV1, ControllerWorkflowError>(ControllerWorkflowDecisionV1::Replayed(state))
            &&& command_spec(task_id, after, command_id, other_time, precondition, event, refusal)
                == Err::<ControllerWorkflowDecisionV1, ControllerWorkflowError>(ControllerWorkflowError::CommandConflict)
        }),
{
    let decision = command_spec(task_id, history, command_id, observed_at, precondition, event, refusal)->Ok_0;
    match decision {
        ControllerWorkflowDecisionV1::Append(append) => {
            lemma_accepted_command_replays(task_id, history, command_id, observed_at, precondition, event, refusal, event_id);
            let recorded = committed(append, event_id);
            let extended = history.push(recorded);
            lemma_accepted_command_recovers(task_id, history, command_id, observed_at, precondition, event, refusal, event_id);
            lemma_first_command_range(history, command_id, 0);
            lemma_first_command_after_push(history, recorded, 0);
            assert(prior_command(extended, command_id) == history.len());
            assert(extended[history.len() as int] == recorded);
        },
        _ => {},
    }
}

/// A cancelled or terminal task accepts no further fact of any kind.
pub proof fn lemma_closed_states_absorb(
    task_id: u64,
    state: ControllerWorkflowStateV1,
    event: ControllerWorkflowEventV1,
)
    requires
        state is Cancelled || state is Terminal,
    ensures
        transition(task_id, state, event) is Err,
        !arc(state, event),
{
}

/// Oracle-admitted and Candidate-terminal tasks are already terminal and cannot be relabelled:
/// a new cancel command against them is refused as an illegal transition.
pub proof fn lemma_terminal_tasks_refuse_cancel(
    task_id: u64,
    history: Seq<RecordedControllerEventV1>,
    command_id: u64,
    observed_at: i64,
)
    requires
        replay(task_id, history) is Ok,
        replay(task_id, history)->Ok_0 is OracleAdmitted || replay(task_id, history)->Ok_0 is Terminal
            || replay(task_id, history)->Ok_0 is Cancelled,
        prior_command(history, command_id) == -1,
    ensures
        open_spec(task_id, history, command_id, observed_at, ControllerWorkflowEventV1::WorkflowCancelled)
            == Err::<ControllerWorkflowStateV1, Result<ControllerWorkflowDecisionV1, ControllerWorkflowError>>(
                Err(ControllerWorkflowError::InvalidTransition)),
{
}

/// Partial evidence is never promoted to success: a Candidate outcome is admitted only when no
/// claim is rejected or partial, and any rejected claim makes it rejected.
pub proof fn lemma_terminal_status_never_promotes(rejected_claims: u64, partial_claims: u64)
    ensures
        terminal_status_of(rejected_claims, partial_claims) == MigrationTerminalStatusV1::Admitted
            <==> (rejected_claims == 0 && partial_claims == 0),
        rejected_claims > 0 ==> terminal_status_of(rejected_claims, partial_claims) == MigrationTerminalStatusV1::Rejected,
{
}

/// Every recovered state belongs to the task whose stream was replayed.
pub proof fn lemma_recovered_state_owned_by_task(task_id: u64, history: Seq<RecordedControllerEventV1>)
    requires
        replay(task_id, history) is Ok,
    ensures
        owned_by(task_id, replay(task_id, history)->Ok_0),
    decreases history.len(),
{
    if history.len() > 0 {
        let prefix = history.drop_last();
        lemma_recovered_state_owned_by_task(task_id, prefix);
        lemma_transition_keeps_owner(task_id, replay(task_id, prefix)->Ok_0, history.last().event);
    }
}

/// One legal transition keeps the state owned by the same task.
pub proof fn lemma_transition_keeps_owner(
    task_id: u64,
    state: ControllerWorkflowStateV1,
    event: ControllerWorkflowEventV1,
)
    requires
        owned_by(task_id, state),
        transition(task_id, state, event) is Ok,
    ensures
        owned_by(task_id, transition(task_id, state, event)->Ok_0),
{
}

/// The recovered state owes no business action exactly when nothing is recorded, the task was
/// cancelled, Intent Admission is blocked, or the Oracle stage ended in admission.
pub proof fn lemma_idle_states(state: ControllerWorkflowStateV1)
    ensures
        next_action_of(state) == ControllerWorkflowNextActionV1::NoAction <==> (state is NotFound
            || state is Cancelled || state is IntentAdmissionBlocked || state is OracleAdmitted),
{
}

/// Only current-V1 streams recover: a stream holding any fact of another schema version is an
/// invalid history, whatever else it holds.
pub proof fn lemma_only_current_v1_recovers(task_id: u64, history: Seq<RecordedControllerEventV1>, i: int)
    requires
        0 <= i < history.len(),
        history[i].schema_version != 1,
    ensures
        replay(task_id, history) is Err,
{
    let prefix = history.take(i + 1);
    assert(prefix.drop_last() == history.take(i));
    assert(prefix.last() == history[i]);
    lemma_replay_error_persists(task_id, history, i + 1);
}

/// Whether carrying out `action` ends in recording `event`: the fact each command that performs
/// the action appends. Admission controls are recorded before the outcome, which needs at least
/// one observed control. Waiting on nothing and a terminal report record nothing.
pub open spec fn action_records(action: ControllerWorkflowNextActionV1, event: ControllerWorkflowEventV1) -> bool {
    match action {
        ControllerWorkflowNextActionV1::NoAction | ControllerWorkflowNextActionV1::Terminal { .. } => false,
        ControllerWorkflowNextActionV1::AuthorizeSirEpisode(_) => event is SirEpisodeAuthorized,
        ControllerWorkflowNextActionV1::RunSirEpisode(_) => event is SirProposalRecorded,
        ControllerWorkflowNextActionV1::DeriveIntentDecisionRequests { .. } => event is IntentDecisionRequestsRecorded,
        ControllerWorkflowNextActionV1::AwaitUserIntentDecision { .. } => event is UserIntentDecisionRecorded,
        ControllerWorkflowNextActionV1::AuthorizeIntentAdmission { .. } => event is IntentAdmissionAuthorized,
        ControllerWorkflowNextActionV1::RunIntentAdmission { .. } => event is AdmittedIntentRecorded
            || event is IntentAdmissionBlocked,
        ControllerWorkflowNextActionV1::AwaitOracleExplorationWorkspace { .. } => event is OracleExplorationOpened,
        ControllerWorkflowNextActionV1::RunOracleExploration(_) => event is OracleStrategyAuthorized
            || event is OraclePortfolioFrozen,
        ControllerWorkflowNextActionV1::RunOracleStrategy(_) => event is OracleStrategyObservationsRecorded
            || event is OracleStrategySubmissionRecorded,
        ControllerWorkflowNextActionV1::AwaitOracleAdmissionMechanisms(_) => event is OracleAdmissionAuthorized,
        ControllerWorkflowNextActionV1::RunOracleAdmissionControls { receipts, .. } => event is OracleControlAuthorized
            || (event is OracleAdmissionRecorded && receipts != ReceiptList::Empty),
        ControllerWorkflowNextActionV1::ExecuteOracleAdmissionControl { .. } => event is OracleControlObserved,
        ControllerWorkflowNextActionV1::PrepareCandidateOracleContract { .. } => event is CandidateOracleContractFrozen,
        ControllerWorkflowNextActionV1::AwaitCandidateProposalLoop(_) => event is CandidateProposalRequestFrozen,
        ControllerWorkflowNextActionV1::AuthorizeCandidateProposalEpisode(_) => event is CandidateProposalEpisodeAuthorized,
        ControllerWorkflowNextActionV1::RunCandidateProposalEpisode(_) => event is CandidateProposalRecorded,
        ControllerWorkflowNextActionV1::AwaitCandidateBuild { .. } => event is CandidateBuildFrozen,
        ControllerWorkflowNextActionV1::AuthorizeCandidateBuild(_) => event is CandidateBuildAuthorized,
        ControllerWorkflowNextActionV1::RunCandidateBuild(_) => event is CandidateBuildObserved,
        ControllerWorkflowNextActionV1::AwaitCandidateAdmissionMechanisms { .. } => event is CandidateAdmissionAuthorized,
        ControllerWorkflowNextActionV1::AwaitCandidateControlReceipts(_) => event is CandidateAdmissionRecorded,
    }
}

/// The next action always moves the workflow forward: every fact that carrying it out records
/// is a legal transition out of the state that selected it. Only the states with nothing left to
/// drive (not found, cancelled, blocked Intent Admission, admitted Oracle, terminal) select an
/// action that records nothing, and only a terminal state reports its outcome.
pub proof fn lemma_next_action_moves_forward(state: ControllerWorkflowStateV1, event: ControllerWorkflowEventV1)
    ensures
        action_records(next_action_of(state), event) ==> arc(state, event),
        (next_action_of(state) is NoAction || next_action_of(state) is Terminal) <==> (state is NotFound
            || state is Cancelled || state is IntentAdmissionBlocked || state is OracleAdmitted || state is Terminal),
        next_action_of(state) is Terminal <==> state is Terminal,
{
}

} // verus!
