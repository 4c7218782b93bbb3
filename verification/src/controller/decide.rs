use vstd::prelude::*;

use crate::controller::events::{ControllerWorkflowError, ControllerWorkflowEventV1};
use crate::controller::recover::{
    RecordedControllerEventV1, first_command_from, head_of, prior_command, recover_controller_workflow,
    replay,
};
use crate::controller::state::ControllerWorkflowStateV1;
use crate::controller::transition::{
    apply, cancellable, candidate_request_bound, is_cancellable, request_bound, transition,
};

verus! {

/// The new fact a command owes the stream, bound to the exact head it extends.
#[derive(Debug, PartialEq, Eq)]
pub struct ControllerWorkflowAppendV1 {
    /// The fact the new event names as its causal parent.
    pub parent_event_id: Option<u64>,
    /// Number of facts the stream must still hold when the event is appended.
    pub expected_revision: u64,
    pub command_id: u64,
    pub observed_at: i64,
    pub event: ControllerWorkflowEventV1,
    /// The state recovery yields once the event is recorded.
    pub next: ControllerWorkflowStateV1,
}

/// A fact whose command checks passed but which the reducer refuses. The store accepts any fact
/// at the expected revision, so the caller appends it; recovering the stream then fails with
/// `error`, which is the command's answer.
#[derive(Debug, PartialEq, Eq)]
pub struct ControllerWorkflowRejectedAppendV1 {
    pub parent_event_id: Option<u64>,
    pub expected_revision: u64,
    pub command_id: u64,
    pub observed_at: i64,
    pub event: ControllerWorkflowEventV1,
    /// The error recovery reports once the fact is recorded.
    pub error: ControllerWorkflowError,
}

/// What one Controller command decided against the recovered stream.
#[derive(Debug, PartialEq, Eq)]
pub enum ControllerWorkflowDecisionV1 {
    /// The exact command was already committed; this is the current state.
    Replayed(ControllerWorkflowStateV1),
    /// The command is new and legal; the caller appends this fact.
    Append(ControllerWorkflowAppendV1),
    /// The command is new but its fact is refused by the reducer; the caller appends it and
    /// answers with the recovery error.
    AppendRejected(ControllerWorkflowRejectedAppendV1),
}

/// Whether `event` names a legal stage transition out of the kind of `state`.
pub open spec fn arc(state: ControllerWorkflowStateV1, event: ControllerWorkflowEventV1) -> bool {
    match event {
        ControllerWorkflowEventV1::WorkflowCancelled => cancellable(state),
        ControllerWorkflowEventV1::WorkflowFrozen(_) => state is NotFound,
        ControllerWorkflowEventV1::SirEpisodeAuthorized(_) => state is Frozen,
        ControllerWorkflowEventV1::SirProposalRecorded(_) => state is SirEpisodeAuthorized,
        ControllerWorkflowEventV1::IntentDecisionRequestsRecorded(_) => state is SirProposed,
        ControllerWorkflowEventV1::UserIntentDecisionRecorded(_) => state is AwaitingUserIntentDecision,
        ControllerWorkflowEventV1::IntentAdmissionAuthorized(_) => state is UserIntentDecisionRecorded
            || state is IntentAdmissionBlocked,
        ControllerWorkflowEventV1::IntentAdmissionBlocked(_) => state is IntentAdmissionAuthorized,
        ControllerWorkflowEventV1::AdmittedIntentRecorded(_) => state is IntentAdmissionAuthorized,
        ControllerWorkflowEventV1::OracleExplorationOpened(_) => state is AdmittedIntent,
        ControllerWorkflowEventV1::OracleStrategyAuthorized(_) => state is OracleExplorationOpened,
        ControllerWorkflowEventV1::OracleStrategyObservationsRecorded(_) => state is OracleStrategyAuthorized,
        ControllerWorkflowEventV1::OracleStrategySubmissionRecorded(_) => state is OracleStrategyAuthorized,
        ControllerWorkflowEventV1::OraclePortfolioFrozen(_) => state is OracleExplorationOpened,
        ControllerWorkflowEventV1::OracleAdmissionAuthorized(_) => state is OraclePortfolioFrozen,
        ControllerWorkflowEventV1::OracleControlAuthorized(_) => state is OracleAdmissionAuthorized
            || state is OracleControlsObserved,
        ControllerWorkflowEventV1::OracleControlObserved(_) => state is OracleControlAuthorized,
        ControllerWorkflowEventV1::OracleAdmissionRecorded(_) => state is OracleControlsObserved,
        ControllerWorkflowEventV1::CandidateOracleContractFrozen(_) => state is OracleAdmitted,
        ControllerWorkflowEventV1::CandidateProposalRequestFrozen(_) => state is CandidateOracleContractFrozen,
        ControllerWorkflowEventV1::CandidateProposalEpisodeAuthorized(_) => state is CandidateProposalRequestFrozen,
        ControllerWorkflowEventV1::CandidateProposalRecorded(_) => state is CandidateProposalEpisodeAuthorized,
        ControllerWorkflowEventV1::CandidateBuildFrozen(_) => state is CandidateProposed,
        ControllerWorkflowEventV1::CandidateBuildAuthorized(_) => state is CandidateBuildFrozen,
        ControllerWorkflowEventV1::CandidateBuildObserved(_) => state is CandidateBuildAuthorized,
        ControllerWorkflowEventV1::CandidateAdmissionAuthorized(_) => state is CandidateBuildObserved,
        ControllerWorkflowEventV1::CandidateAdmissionRecorded(_) => state is CandidateAdmissionAuthorized,
    }
}

/// First half of every command: recover the stream, answer an exact replay (or refuse a
/// reused command identity), and refuse an illegal stage transition. `Ok` carries the state a
/// new command continues from; `Err` carries the command's final answer.
pub open spec fn open_spec(
    task_id: u64,
    history: Seq<RecordedControllerEventV1>,
    command_id: u64,
    observed_at: i64,
    event: ControllerWorkflowEventV1,
) -> Result<ControllerWorkflowStateV1, Result<ControllerWorkflowDecisionV1, ControllerWorkflowError>> {
    match replay(task_id, history) {
        Err(e) => Err(Err(e)),
        Ok(state) => {
            let i = prior_command(history, command_id);
            if i >= 0 {
                let prior = history[i];
                if prior.schema_version == 1 && prior.observed_at == observed_at && prior.event == event {
                    Err(Ok(ControllerWorkflowDecisionV1::Replayed(state)))
                } else {
                    Err(Err(ControllerWorkflowError::CommandConflict))
                }
            } else if !arc(state, event) {
                Err(Err(ControllerWorkflowError::InvalidTransition))
            } else {
                Ok(state)
            }
        },
    }
}

/// Whether the authority a command presents differs from the authority the stream recovered,
/// in the fields the command compares before it appends. Such a command is refused with
/// `BindingMismatch` and appends nothing.
pub open spec fn drifted(task_id: u64, state: ControllerWorkflowStateV1, event: ControllerWorkflowEventV1) -> bool {
    match event {
        ControllerWorkflowEventV1::SirEpisodeAuthorized(p) =>
            state matches ControllerWorkflowStateV1::Frozen(a) && p.request != a.request,
        ControllerWorkflowEventV1::IntentAdmissionAuthorized(p) => match state {
            ControllerWorkflowStateV1::UserIntentDecisionRecorded { decision, .. } => p.decision != decision,
            ControllerWorkflowStateV1::IntentAdmissionBlocked { decision, .. } => p.decision != decision,
            _ => false,
        },
        ControllerWorkflowEventV1::IntentAdmissionBlocked(p) => state matches ControllerWorkflowStateV1::IntentAdmissionAuthorized {
            decision, executable, restricted_store, ..
        } && !(p.decision == decision && p.executable == executable && p.restricted_store == restricted_store),
        ControllerWorkflowEventV1::OracleStrategyAuthorized(p) => state matches ControllerWorkflowStateV1::OracleExplorationOpened(a)
            && !(p.workspace == a.workspace && p.catalog == a.strategy_catalog && p.previous_ledger == a.ledger
            && p.previous_ledger_revision == a.ledger_revision && p.run_workspace == a.workspace),
        ControllerWorkflowEventV1::OracleStrategyObservationsRecorded(p) =>
            state matches ControllerWorkflowStateV1::OracleStrategyAuthorized(s) && !(p.previous_ledger == s.exploration.ledger
            && p.previous_ledger_revision == s.exploration.ledger_revision && p.run == s.run),
        ControllerWorkflowEventV1::OracleStrategySubmissionRecorded(p) =>
            state matches ControllerWorkflowStateV1::OracleStrategyAuthorized(s) && !(p.workspace == s.exploration.workspace
            && p.previous_ledger == s.exploration.ledger && p.previous_ledger_revision == s.exploration.ledger_revision
            && p.run == s.run),
        ControllerWorkflowEventV1::OraclePortfolioFrozen(p) => state matches ControllerWorkflowStateV1::OracleExplorationOpened(e)
            && !(p.ledger == e.ledger && p.ledger_revision == e.ledger_revision),
        ControllerWorkflowEventV1::OracleAdmissionAuthorized(p) => state matches ControllerWorkflowStateV1::OraclePortfolioFrozen(f)
            && !(p.proposal == f.proposal && p.policy == f.policy),
        ControllerWorkflowEventV1::OracleAdmissionRecorded(p) =>
            state matches ControllerWorkflowStateV1::OracleControlsObserved { authority, receipts }
            && !(p.proposal == authority.portfolio.proposal && p.policy == authority.portfolio.policy
            && p.mechanisms == authority.mechanisms && p.attempt == authority.attempt && p.evidence_receipts == receipts),
        ControllerWorkflowEventV1::CandidateOracleContractFrozen(p) =>
            state matches ControllerWorkflowStateV1::OracleAdmitted { authority, outcome, .. }
            && !(p.proposal == authority.portfolio.proposal && p.oracle_workspace == authority.portfolio.exploration.workspace
            && p.outcome == outcome),
        ControllerWorkflowEventV1::CandidateProposalRequestFrozen(p) =>
            state matches ControllerWorkflowStateV1::CandidateOracleContractFrozen(c)
            && !candidate_request_bound(task_id, c, p.request_facts),
        ControllerWorkflowEventV1::CandidateProposalEpisodeAuthorized(p) =>
            state matches ControllerWorkflowStateV1::CandidateProposalRequestFrozen(a) && p.request != a.request,
        ControllerWorkflowEventV1::CandidateProposalRecorded(p) =>
            state matches ControllerWorkflowStateV1::CandidateProposalEpisodeAuthorized(a) && !(p.request_id == a.request
            && p.terminal_episode == a.episode_id && candidate_request_bound(task_id, a.candidate, p.request_facts)),
        ControllerWorkflowEventV1::CandidateBuildAuthorized(p) =>
            state matches ControllerWorkflowStateV1::CandidateBuildFrozen(a) && p.request != a.request,
        ControllerWorkflowEventV1::CandidateBuildObserved(p) =>
            state matches ControllerWorkflowStateV1::CandidateBuildAuthorized(a) && p.request_identity != a.request,
        ControllerWorkflowEventV1::CandidateAdmissionAuthorized(p) =>
            state matches ControllerWorkflowStateV1::CandidateBuildObserved { authority, .. }
            && !(p.proposal == authority.proposal && p.contract == authority.candidate.candidate.contract),
        ControllerWorkflowEventV1::CandidateAdmissionRecorded(p) =>
            state matches ControllerWorkflowStateV1::CandidateAdmissionAuthorized(a)
            && !(p.mechanisms == a.mechanisms && p.attempt == a.attempt),
        _ => false,
    }
}

/// Second half of every command: a presented authority that drifted from the recovered one is
/// refused; otherwise the new fact and the state it leads to, or, when the reducer refuses the
/// fact, the fact with the error recovery will report once it is recorded.
pub open spec fn close_spec(
    task_id: u64,
    history: Seq<RecordedControllerEventV1>,
    state: ControllerWorkflowStateV1,
    command_id: u64,
    observed_at: i64,
    event: ControllerWorkflowEventV1,
) -> Result<ControllerWorkflowDecisionV1, ControllerWorkflowError> {
    if drifted(task_id, state, event) {
        Err(ControllerWorkflowError::BindingMismatch)
    } else {
        match transition(task_id, state, event) {
            Ok(next) => Ok(ControllerWorkflowDecisionV1::Append(ControllerWorkflowAppendV1 {
                parent_event_id: head_of(history),
                expected_revision: history.len() as u64,
                command_id,
                observed_at,
                event,
                next,
            })),
            Err(error) => Ok(ControllerWorkflowDecisionV1::AppendRejected(ControllerWorkflowRejectedAppendV1 {
                parent_event_id: head_of(history),
                expected_revision: history.len() as u64,
                command_id,
                observed_at,
                event,
                error,
            })),
        }
    }
}

/// The complete answer to one Controller command: a failed state-independent precondition,
/// then recovery and replay, then the command's own state-dependent refusal, then the fact.
pub open spec fn command_spec(
    task_id: u64,
    history: Seq<RecordedControllerEventV1>,
    command_id: u64,
    observed_at: i64,
    precondition: Option<ControllerWorkflowError>,
    event: ControllerWorkflowEventV1,
    refusal: spec_fn(ControllerWorkflowStateV1) -> Option<ControllerWorkflowError>,
) -> Result<ControllerWorkflowDecisionV1, ControllerWorkflowError> {
    match precondition {
        Some(e) => Err(e),
        None => match open_spec(task_id, history, command_id, observed_at, event) {
            Err(answer) => answer,
            Ok(state) => match refusal(state) {
                Some(e) => Err(e),
                None => close_spec(task_id, history, state, command_id, observed_at, event),
            },
        },
    }
}

/// The answer to a command that recovers the stream before its state-independent checks: an
/// invalid history is reported first, and otherwise the answer is `command_spec`'s.
pub open spec fn recovered_command_spec(
    task_id: u64,
    history: Seq<RecordedControllerEventV1>,
    command_id: u64,
    observed_at: i64,
    precondition: Option<ControllerWorkflowError>,
    event: ControllerWorkflowEventV1,
    refusal: spec_fn(ControllerWorkflowStateV1) -> Option<ControllerWorkflowError>,
) -> Result<ControllerWorkflowDecisionV1, ControllerWorkflowError> {
    match replay(task_id, history) {
        Err(e) => Err(e),
        Ok(_) => command_spec(task_id, history, command_id, observed_at, precondition, event, refusal),
    }
}

/// Whether `event` names a legal stage transition out of the kind of `state`.
pub fn is_arc(state: &ControllerWorkflowStateV1, event: &ControllerWorkflowEventV1) -> (r: bool)
    ensures
        r == arc(*state, *event),
{
    match event {
        ControllerWorkflowEventV1::WorkflowCancelled => is_cancellable(state),
        ControllerWorkflowEventV1::WorkflowFrozen(_) => matches!(state, ControllerWorkflowStateV1::NotFound),
        ControllerWorkflowEventV1::SirEpisodeAuthorized(_) => matches!(state, ControllerWorkflowStateV1::Frozen(_)),
        ControllerWorkflowEventV1::SirProposalRecorded(_) => matches!(state, ControllerWorkflowStateV1::SirEpisodeAuthorized(_)),
        ControllerWorkflowEventV1::IntentDecisionRequestsRecorded(_) => matches!(state, ControllerWorkflowStateV1::SirProposed { .. }),
        ControllerWorkflowEventV1::UserIntentDecisionRecorded(_) =>
            matches!(state, ControllerWorkflowStateV1::AwaitingUserIntentDecision { .. }),
        ControllerWorkflowEventV1::IntentAdmissionAuthorized(_) => matches!(
            state,
            ControllerWorkflowStateV1::UserIntentDecisionRecorded { .. } | ControllerWorkflowStateV1::IntentAdmissionBlocked { .. }
        ),
        ControllerWorkflowEventV1::IntentAdmissionBlocked(_) =>
            matches!(state, ControllerWorkflowStateV1::IntentAdmissionAuthorized { .. }),
        ControllerWorkflowEventV1::AdmittedIntentRecorded(_) =>
            matches!(state, ControllerWorkflowStateV1::IntentAdmissionAuthorized { .. }),
        ControllerWorkflowEventV1::OracleExplorationOpened(_) => matches!(state, ControllerWorkflowStateV1::AdmittedIntent { .. }),
        ControllerWorkflowEventV1::OracleStrategyAuthorized(_) =>
            matches!(state, ControllerWorkflowStateV1::OracleExplorationOpened(_)),
        ControllerWorkflowEventV1::OracleStrategyObservationsRecorded(_) =>
            matches!(state, ControllerWorkflowStateV1::OracleStrategyAuthorized(_)),
        ControllerWorkflowEventV1::OracleStrategySubmissionRecorded(_) =>
            matches!(state, ControllerWorkflowStateV1::OracleStrategyAuthorized(_)),
        ControllerWorkflowEventV1::OraclePortfolioFrozen(_) => matches!(state, ControllerWorkflowStateV1::OracleExplorationOpened(_)),
        ControllerWorkflowEventV1::OracleAdmissionAuthorized(_) => matches!(state, ControllerWorkflowStateV1::OraclePortfolioFrozen(_)),
        ControllerWorkflowEventV1::OracleControlAuthorized(_) => matches!(
            state,
            ControllerWorkflowStateV1::OracleAdmissionAuthorized(_) | ControllerWorkflowStateV1::OracleControlsObserved { .. }
        ),
        ControllerWorkflowEventV1::OracleControlObserved(_) =>
            matches!(state, ControllerWorkflowStateV1::OracleControlAuthorized { .. }),
        ControllerWorkflowEventV1::OracleAdmissionRecorded(_) =>
            matches!(state, ControllerWorkflowStateV1::OracleControlsObserved { .. }),
        ControllerWorkflowEventV1::CandidateOracleContractFrozen(_) =>
            matches!(state, ControllerWorkflowStateV1::OracleAdmitted { .. }),
        ControllerWorkflowEventV1::CandidateProposalRequestFrozen(_) =>
            matches!(state, ControllerWorkflowStateV1::CandidateOracleContractFrozen(_)),
        ControllerWorkflowEventV1::CandidateProposalEpisodeAuthorized(_) =>
            matches!(state, ControllerWorkflowStateV1::CandidateProposalRequestFrozen(_)),
        ControllerWorkflowEventV1::CandidateProposalRecorded(_) =>
            matches!(state, ControllerWorkflowStateV1::CandidateProposalEpisodeAuthorized(_)),
        ControllerWorkflowEventV1::CandidateBuildFrozen(_) => matches!(state, ControllerWorkflowStateV1::CandidateProposed { .. }),
        ControllerWorkflowEventV1::CandidateBuildAuthorized(_) => matches!(state, ControllerWorkflowStateV1::CandidateBuildFrozen(_)),
        ControllerWorkflowEventV1::CandidateBuildObserved(_) => matches!(state, ControllerWorkflowStateV1::CandidateBuildAuthorized(_)),
        ControllerWorkflowEventV1::CandidateAdmissionAuthorized(_) =>
            matches!(state, ControllerWorkflowStateV1::CandidateBuildObserved { .. }),
        ControllerWorkflowEventV1::CandidateAdmissionRecorded(_) =>
            matches!(state, ControllerWorkflowStateV1::CandidateAdmissionAuthorized(_)),
    }
}

/// Finds the first fact recorded under `command_id`.
pub fn find_prior_command(history: &Vec<RecordedControllerEventV1>, command_id: u64) -> (r: Option<usize>)
    ensures
        match r {
            Some(i) => i as int == prior_command(history@, command_id) && i < history.len(),
            None => prior_command(history@, command_id) == -1,
        },
{
    let mut i: usize = 0;
    while i < history.len()
        invariant
            i <= history.len(),
            first_command_from(history@, command_id, 0) == first_command_from(history@, command_id, i as int),
        decreases history.len() - i,
    {
        if history[i].command_id == command_id {
            return Some(i);
        }
        i = i + 1;
    }
    None
}

/// First half of every command (see `open_spec`).
pub fn open_command(
    task_id: u64,
    history: &Vec<RecordedControllerEventV1>,
    command_id: u64,
    observed_at: i64,
    event: &ControllerWorkflowEventV1,
) -> (r: Result<ControllerWorkflowStateV1, Result<ControllerWorkflowDecisionV1, ControllerWorkflowError>>)
    ensures
        r == open_spec(task_id, history@, command_id, observed_at, *event),
{
    let state = match recover_controller_workflow(task_id, history) {
        Ok(state) => state,
        Err(e) => return Err(Err(e)),
    };
    open_recovered(task_id, history, state, command_id, observed_at, event)
}

/// First half of a command whose stream is already recovered to `state`: the replay answer or
/// the transition check of `open_spec`.
pub fn open_recovered(
    task_id: u64,
    history: &Vec<RecordedControllerEventV1>,
    state: ControllerWorkflowStateV1,
    command_id: u64,
    observed_at: i64,
    event: &ControllerWorkflowEventV1,
) -> (r: Result<ControllerWorkflowStateV1, Result<ControllerWorkflowDecisionV1, ControllerWorkflowError>>)
    requires
        replay(task_id, history@) == Ok::<ControllerWorkflowStateV1, ControllerWorkflowError>(state),
    ensures
        r == open_spec(task_id, history@, command_id, observed_at, *event),
{
    match find_prior_command(history, command_id) {
        Some(i) => {
            let prior = &history[i];
            if prior.schema_version == 1 && prior.observed_at == observed_at && prior.event.same(event) {
                Err(Ok(ControllerWorkflowDecisionV1::Replayed(state)))
            } else {
                Err(Err(ControllerWorkflowError::CommandConflict))
            }
        },
        None => {
            if !is_arc(&state, event) {
                Err(Err(ControllerWorkflowError::InvalidTransition))
            } else {
                Ok(state)
            }
        },
    }
}

/// Whether the presented authority drifted from the recovered one (see `drifted`).
pub fn has_drifted(task_id: u64, state: &ControllerWorkflowStateV1, event: &ControllerWorkflowEventV1) -> (r: bool)
    ensures
        r == drifted(task_id, *state, *event),
{
    match event {
        ControllerWorkflowEventV1::SirEpisodeAuthorized(p) => match state {
            ControllerWorkflowStateV1::Frozen(a) => p.request != a.request,
            _ => false,
        },
        ControllerWorkflowEventV1::IntentAdmissionAuthorized(p) => match state {
            ControllerWorkflowStateV1::UserIntentDecisionRecorded { decision, .. } => p.decision != *decision,
            ControllerWorkflowStateV1::IntentAdmissionBlocked { decision, .. } => p.decision != *decision,
            _ => false,
        },
        ControllerWorkflowEventV1::IntentAdmissionBlocked(p) => match state {
            ControllerWorkflowStateV1::IntentAdmissionAuthorized { decision, executable, restricted_store, .. } =>
                !(p.decision == *decision && p.executable == *executable && p.restricted_store == *restricted_store),
            _ => false,
        },
        ControllerWorkflowEventV1::OracleStrategyAuthorized(p) => match state {
            ControllerWorkflowStateV1::OracleExplorationOpened(a) => !(p.workspace == a.workspace
                && p.catalog == a.strategy_catalog && p.previous_ledger == a.ledger
                && p.previous_ledger_revision == a.ledger_revision && p.run_workspace == a.workspace),
            _ => false,
        },
        ControllerWorkflowEventV1::OracleStrategyObservationsRecorded(p) => match state {
            ControllerWorkflowStateV1::OracleStrategyAuthorized(s) => !(p.previous_ledger == s.exploration.ledger
                && p.previous_ledger_revision == s.exploration.ledger_revision && p.run == s.run),
            _ => false,
        },
        ControllerWorkflowEventV1::OracleStrategySubmissionRecorded(p) => match state {
            ControllerWorkflowStateV1::OracleStrategyAuthorized(s) => !(p.workspace == s.exploration.workspace
                && p.previous_ledger == s.exploration.ledger
                && p.previous_ledger_revision == s.exploration.ledger_revision && p.run == s.run),
            _ => false,
        },
        ControllerWorkflowEventV1::OraclePortfolioFrozen(p) => match state {
            ControllerWorkflowStateV1::OracleExplorationOpened(e) =>
                !(p.ledger == e.ledger && p.ledger_revision == e.ledger_revision),
            _ => false,
        },
        ControllerWorkflowEventV1::OracleAdmissionAuthorized(p) => match state {
            ControllerWorkflowStateV1::OraclePortfolioFrozen(f) => !(p.proposal == f.proposal && p.policy == f.policy),
            _ => false,
        },
        ControllerWorkflowEventV1::OracleAdmissionRecorded(p) => match state {
            ControllerWorkflowStateV1::OracleControlsObserved { authority, receipts } =>
                !(p.proposal == authority.portfolio.proposal && p.policy == authority.portfolio.policy
                    && p.mechanisms == authority.mechanisms && p.attempt == authority.attempt
                    && p.evidence_receipts.same(receipts)),
            _ => false,
        },
        ControllerWorkflowEventV1::CandidateOracleContractFrozen(p) => match state {
            ControllerWorkflowStateV1::OracleAdmitted { authority, outcome, .. } =>
                !(p.proposal == authority.portfolio.proposal
                    && p.oracle_workspace == authority.portfolio.exploration.workspace && p.outcome == *outcome),
            _ => false,
        },
        ControllerWorkflowEventV1::CandidateProposalRequestFrozen(p) => match state {
            ControllerWorkflowStateV1::CandidateOracleContractFrozen(c) => !request_bound(task_id, *c, p.request_facts),
            _ => false,
        },
        ControllerWorkflowEventV1::CandidateProposalEpisodeAuthorized(p) => match state {
            ControllerWorkflowStateV1::CandidateProposalRequestFrozen(a) => p.request != a.request,
            _ => false,
        },
        ControllerWorkflowEventV1::CandidateProposalRecorded(p) => match state {
            ControllerWorkflowStateV1::CandidateProposalEpisodeAuthorized(a) => !(p.request_id == a.request
                && p.terminal_episode == a.episode_id && request_bound(task_id, a.candidate, p.request_facts)),
            _ => false,
        },
        ControllerWorkflowEventV1::CandidateBuildAuthorized(p) => match state {
            ControllerWorkflowStateV1::CandidateBuildFrozen(a) => p.request != a.request,
            _ => false,
        },
        ControllerWorkflowEventV1::CandidateBuildObserved(p) => match state {
            ControllerWorkflowStateV1::CandidateBuildAuthorized(a) => p.request_identity != a.request,
            _ => false,
        },
        ControllerWorkflowEventV1::CandidateAdmissionAuthorized(p) => match state {
            ControllerWorkflowStateV1::CandidateBuildObserved { authority, .. } =>
                !(p.proposal == authority.proposal && p.contract == authority.candidate.candidate.contract),
            _ => false,
        },
        ControllerWorkflowEventV1::CandidateAdmissionRecorded(p) => match state {
            ControllerWorkflowStateV1::CandidateAdmissionAuthorized(a) =>
                !(p.mechanisms == a.mechanisms && p.attempt == a.attempt),
            _ => false,
        },
        _ => false,
    }
}

/// Second half of every command (see `close_spec`).
pub fn close_command(
    task_id: u64,
    history: &Vec<RecordedControllerEventV1>,
    state: ControllerWorkflowStateV1,
    command_id: u64,
    observed_at: i64,
    event: ControllerWorkflowEventV1,
) -> (r: Result<ControllerWorkflowDecisionV1, ControllerWorkflowError>)
    ensures
        r == close_spec(task_id, history@, state, command_id, observed_at, event),
{
    if has_drifted(task_id, &state, &event) {
        return Err(ControllerWorkflowError::BindingMismatch);
    }
    let len = history.len();
    let parent_event_id = if len == 0 {
        None
    } else {
        Some(history[len - 1].event_id)
    };
    match apply(task_id, state, &event) {
        Ok(next) => Ok(ControllerWorkflowDecisionV1::Append(ControllerWorkflowAppendV1 {
            parent_event_id,
            expected_revision: len as u64,
            command_id,
            observed_at,
            event,
            next,
        })),
        Err(error) => Ok(ControllerWorkflowDecisionV1::AppendRejected(ControllerWorkflowRejectedAppendV1 {
            parent_event_id,
            expected_revision: len as u64,
            command_id,
            observed_at,
            event,
            error,
        })),
    }
}

} // verus!
