use vstd::prelude::*;

use crate::controller::events::{
    CandidateRequestFactsV1, CompletionBindingV1, HistoryFaultV1, OracleControlAuthorizedPayload, ControllerWorkflowError, ControllerWorkflowEventV1,
};
use crate::controller::state::ControllerWorkflowStateV1;
use crate::controller::types::{
    FrozenCandidateAdmissionAuthorityV1, FrozenCandidateBuildAuthorityV1,
    FrozenCandidateOracleAuthorityV1, FrozenCandidateProposalAuthorityV1,
    FrozenOracleAdmissionAuthorityV1, FrozenOracleControlAuthorityV1,
    FrozenOracleExplorationAuthorityV1, FrozenOraclePortfolioAuthorityV1,
    FrozenOracleStrategyAuthorityV1, MigrationTerminalStatusV1, OracleControlReceiptV1, ReceiptList,
};

verus! {

/// Terminal status of a Candidate outcome: rejected when any claim is rejected, otherwise
/// partial when any claim is partial, otherwise admitted.
pub open spec fn terminal_status_of(rejected_claims: u64, partial_claims: u64) -> MigrationTerminalStatusV1 {
    if rejected_claims > 0 {
        MigrationTerminalStatusV1::Rejected
    } else if partial_claims > 0 {
        MigrationTerminalStatusV1::Partial
    } else {
        MigrationTerminalStatusV1::Admitted
    }
}

/// States from which the task may still be cancelled: every recorded, non-terminal state.
pub open spec fn cancellable(state: ControllerWorkflowStateV1) -> bool {
    !(state is NotFound || state is Cancelled || state is OracleAdmitted || state is Terminal)
}

/// Whether a Candidate proposal-step request is bound to the task's frozen Candidate authority.
pub open spec fn candidate_request_bound(
    task_id: u64,
    authority: FrozenCandidateOracleAuthorityV1,
    facts: CandidateRequestFactsV1,
) -> bool {
    &&& facts.candidate_role
    &&& facts.workspace_task == task_id
    &&& facts.workspace == authority.workspace
    &&& facts.contract == authority.contract
    &&& facts.materials_bound
}

/// Start of one Oracle control run over the receipts observed so far in the attempt.
pub open spec fn control_start(
    p: OracleControlAuthorizedPayload,
    a: FrozenOracleAdmissionAuthorityV1,
    receipts: ReceiptList,
) -> Result<ControllerWorkflowStateV1, ControllerWorkflowError> {
    if p.expected_run is None || !p.dispatch_bound || !p.evidence_admissible {
        Err(ControllerWorkflowError::Binding)
    } else if p.expected_run == Some(p.run) && p.dispatch_run == p.run {
        Ok(ControllerWorkflowStateV1::OracleControlAuthorized {
            authority: FrozenOracleControlAuthorityV1 { admission: a, run: p.run, dispatch: p.dispatch },
            previous_receipts: receipts,
        })
    } else {
        Err(ControllerWorkflowError::InvalidHistory(HistoryFaultV1::OracleControlStartChanged))
    }
}

/// The Controller reducer: the state a recorded event moves `state` to, or why the history is
/// illegal. Any event that is not a legal arc from the current state is invalid history.
pub open spec fn transition(
    task_id: u64,
    state: ControllerWorkflowStateV1,
    event: ControllerWorkflowEventV1,
) -> Result<ControllerWorkflowStateV1, ControllerWorkflowError> {
    match event {
        ControllerWorkflowEventV1::WorkflowCancelled => if cancellable(state) {
            Ok(ControllerWorkflowStateV1::Cancelled)
        } else {
            Err(ControllerWorkflowError::InvalidHistory(HistoryFaultV1::IllegalTransition))
        },
        ControllerWorkflowEventV1::WorkflowFrozen(p) => match state {
            ControllerWorkflowStateV1::NotFound => if p.authority.task_id == task_id {
                Ok(ControllerWorkflowStateV1::Frozen(p.authority))
            } else {
                Err(ControllerWorkflowError::InvalidHistory(HistoryFaultV1::TaskAuthorityChanged))
            },
            _ => Err(ControllerWorkflowError::InvalidHistory(HistoryFaultV1::IllegalTransition)),
        },
        ControllerWorkflowEventV1::SirEpisodeAuthorized(p) => match state {
            ControllerWorkflowStateV1::Frozen(a) => if p.request == a.request {
                Ok(ControllerWorkflowStateV1::SirEpisodeAuthorized(a))
            } else {
                Err(ControllerWorkflowError::InvalidHistory(HistoryFaultV1::SirRequestChanged))
            },
            _ => Err(ControllerWorkflowError::InvalidHistory(HistoryFaultV1::IllegalTransition)),
        },
        ControllerWorkflowEventV1::SirProposalRecorded(p) => match state {
            ControllerWorkflowStateV1::SirEpisodeAuthorized(a) => Ok(
                ControllerWorkflowStateV1::SirProposed { authority: a, terminal: p.terminal, proposal: p.proposal },
            ),
            _ => Err(ControllerWorkflowError::InvalidHistory(HistoryFaultV1::IllegalTransition)),
        },
        ControllerWorkflowEventV1::IntentDecisionRequestsRecorded(p) => match state {
            ControllerWorkflowStateV1::SirProposed { authority, terminal, proposal } => Ok(
                ControllerWorkflowStateV1::AwaitingUserIntentDecision { authority, terminal, proposal, requests: p.requests },
            ),
            _ => Err(ControllerWorkflowError::InvalidHistory(HistoryFaultV1::IllegalTransition)),
        },
        ControllerWorkflowEventV1::UserIntentDecisionRecorded(p) => match state {
            ControllerWorkflowStateV1::AwaitingUserIntentDecision { authority, terminal, proposal, requests } => Ok(
                ControllerWorkflowStateV1::UserIntentDecisionRecorded {
                    authority,
                    terminal,
                    proposal,
                    requests,
                    request: p.request,
                    authority_grant: p.authority_grant,
                    decision: p.decision,
                },
            ),
            _ => Err(ControllerWorkflowError::InvalidHistory(HistoryFaultV1::IllegalTransition)),
        },
        ControllerWorkflowEventV1::IntentAdmissionAuthorized(p) => match state {
            ControllerWorkflowStateV1::UserIntentDecisionRecorded {
                authority, terminal, proposal, requests, request, authority_grant, decision,
            } => if p.decision == decision {
                Ok(ControllerWorkflowStateV1::IntentAdmissionAuthorized {
                    authority, terminal, proposal, requests, request, authority_grant, decision,
                    executable: p.executable,
                    restricted_store: p.restricted_store,
                })
            } else {
                Err(ControllerWorkflowError::InvalidHistory(HistoryFaultV1::IntentAdmissionDecisionChanged))
            },
            ControllerWorkflowStateV1::IntentAdmissionBlocked {
                authority, terminal, proposal, requests, request, authority_grant, decision, ..
            } => if p.decision == decision {
                Ok(ControllerWorkflowStateV1::IntentAdmissionAuthorized {
                    authority, terminal, proposal, requests, request, authority_grant, decision,
                    executable: p.executable,
                    restricted_store: p.restricted_store,
                })
            } else {
                Err(ControllerWorkflowError::InvalidHistory(HistoryFaultV1::IntentAdmissionReauthorizationChanged))
            },
            _ => Err(ControllerWorkflowError::InvalidHistory(HistoryFaultV1::IllegalTransition)),
        },
        ControllerWorkflowEventV1::IntentAdmissionBlocked(p) => match state {
            ControllerWorkflowStateV1::IntentAdmissionAuthorized {
                authority, terminal, proposal, requests, request, authority_grant, decision, executable, restricted_store,
            } => if p.decision == decision && p.executable == executable && p.restricted_store == restricted_store {
                Ok(ControllerWorkflowStateV1::IntentAdmissionBlocked {
                    authority, terminal, proposal, requests, request, authority_grant, decision, executable,
                    restricted_store,
                    reason: p.reason,
                })
            } else {
                Err(ControllerWorkflowError::InvalidHistory(HistoryFaultV1::IntentAdmissionBlockedAuthorityChanged))
            },
            _ => Err(ControllerWorkflowError::InvalidHistory(HistoryFaultV1::IllegalTransition)),
        },
        ControllerWorkflowEventV1::AdmittedIntentRecorded(p) => match state {
            ControllerWorkflowStateV1::IntentAdmissionAuthorized {
                authority, terminal, proposal, requests, request, authority_grant, decision, executable, restricted_store,
            } => Ok(ControllerWorkflowStateV1::AdmittedIntent {
                authority, terminal, proposal, requests, request, authority_grant, decision, executable, restricted_store,
                outcome: p.outcome,
                contract: p.contract,
                contract_body: p.contract_body,
            }),
            _ => Err(ControllerWorkflowError::InvalidHistory(HistoryFaultV1::IllegalTransition)),
        },
        ControllerWorkflowEventV1::OracleExplorationOpened(p) => match state {
            ControllerWorkflowStateV1::AdmittedIntent { authority, outcome, contract, contract_body, .. } => {
                let o = p.authority;
                if !(contract_body.identity == contract && contract_body.task_id == task_id) {
                    Err(ControllerWorkflowError::InvalidHistory(HistoryFaultV1::ContractBodyChanged))
                } else if o.task_id == task_id && o.admitted_intent_outcome == outcome
                    && o.admitted_intent == contract && o.recovery_input == authority.recovery_input
                    && o.claims == contract_body.oracle_claims && o.ledger_revision == 1 {
                    Ok(ControllerWorkflowStateV1::OracleExplorationOpened(o))
                } else {
                    Err(ControllerWorkflowError::InvalidHistory(HistoryFaultV1::OracleExplorationChanged))
                }
            },
            _ => Err(ControllerWorkflowError::InvalidHistory(HistoryFaultV1::IllegalTransition)),
        },
        ControllerWorkflowEventV1::OracleStrategyAuthorized(p) => match state {
            ControllerWorkflowStateV1::OracleExplorationOpened(a) => {
                if p.expected_started_ledger == Some(p.started_ledger) && p.workspace == a.workspace
                    && p.catalog == a.strategy_catalog && p.previous_ledger == a.ledger
                    && p.previous_ledger_revision == a.ledger_revision && p.run_workspace == a.workspace {
                    Ok(ControllerWorkflowStateV1::OracleStrategyAuthorized(FrozenOracleStrategyAuthorityV1 {
                        exploration: FrozenOracleExplorationAuthorityV1 {
                            ledger: p.started_ledger,
                            ledger_revision: p.started_ledger_revision,
                            ..a
                        },
                        previous_ledger: a.ledger,
                        run: p.run,
                    }))
                } else {
                    Err(ControllerWorkflowError::InvalidHistory(HistoryFaultV1::OracleStrategyStartChanged))
                }
            },
            _ => Err(ControllerWorkflowError::InvalidHistory(HistoryFaultV1::IllegalTransition)),
        },
        ControllerWorkflowEventV1::OracleStrategyObservationsRecorded(p) => match state {
            ControllerWorkflowStateV1::OracleStrategyAuthorized(s) => {
                if p.expected_next_ledger == Some(p.next_ledger) && p.previous_ledger == s.exploration.ledger
                    && p.previous_ledger_revision == s.exploration.ledger_revision && p.run == s.run {
                    Ok(ControllerWorkflowStateV1::OracleStrategyAuthorized(FrozenOracleStrategyAuthorityV1 {
                        exploration: FrozenOracleExplorationAuthorityV1 {
                            ledger: p.next_ledger,
                            ledger_revision: p.next_ledger_revision,
                            ..s.exploration
                        },
                        ..s
                    }))
                } else {
                    Err(ControllerWorkflowError::InvalidHistory(HistoryFaultV1::OracleStrategyObservationsChanged))
                }
            },
            _ => Err(ControllerWorkflowError::InvalidHistory(HistoryFaultV1::IllegalTransition)),
        },
        ControllerWorkflowEventV1::OracleStrategySubmissionRecorded(p) => match state {
            ControllerWorkflowStateV1::OracleStrategyAuthorized(s) => match p.completion {
                CompletionBindingV1::Mismatch => Err(ControllerWorkflowError::BindingMismatch),
                CompletionBindingV1::Invalid => Err(ControllerWorkflowError::Binding),
                CompletionBindingV1::Bound => if p.expected_next_ledger == Some(p.next_ledger)
                    && p.workspace == s.exploration.workspace && p.previous_ledger == s.exploration.ledger
                    && p.previous_ledger_revision == s.exploration.ledger_revision && p.run == s.run {
                    Ok(ControllerWorkflowStateV1::OracleExplorationOpened(FrozenOracleExplorationAuthorityV1 {
                        ledger: p.next_ledger,
                        ledger_revision: p.next_ledger_revision,
                        ..s.exploration
                    }))
                } else {
                    Err(ControllerWorkflowError::InvalidHistory(HistoryFaultV1::OracleStrategySubmissionChanged))
                },
            },
            _ => Err(ControllerWorkflowError::InvalidHistory(HistoryFaultV1::IllegalTransition)),
        },
        ControllerWorkflowEventV1::OraclePortfolioFrozen(p) => match state {
            ControllerWorkflowStateV1::OracleExplorationOpened(e) => {
                if p.expected_proposal == Some(p.proposal) && p.ledger == e.ledger
                    && p.ledger_revision == e.ledger_revision && p.policy_is_strict {
                    Ok(ControllerWorkflowStateV1::OraclePortfolioFrozen(FrozenOraclePortfolioAuthorityV1 {
                        exploration: e,
                        proposal: p.proposal,
                        policy: p.policy,
                    }))
                } else {
                    Err(ControllerWorkflowError::InvalidHistory(HistoryFaultV1::PortfolioOrPolicyChanged))
                }
            },
            _ => Err(ControllerWorkflowError::InvalidHistory(HistoryFaultV1::IllegalTransition)),
        },
        ControllerWorkflowEventV1::OracleAdmissionAuthorized(p) => match state {
            ControllerWorkflowStateV1::OraclePortfolioFrozen(f) => {
                if p.expected_attempt == Some(p.attempt) && p.proposal == f.proposal && p.policy == f.policy {
                    Ok(ControllerWorkflowStateV1::OracleAdmissionAuthorized(FrozenOracleAdmissionAuthorityV1 {
                        portfolio: f,
                        mechanisms: p.mechanisms,
                        attempt: p.attempt,
                    }))
                } else {
                    Err(ControllerWorkflowError::InvalidHistory(HistoryFaultV1::OracleAdmissionStartChanged))
                }
            },
            _ => Err(ControllerWorkflowError::InvalidHistory(HistoryFaultV1::IllegalTransition)),
        },
        ControllerWorkflowEventV1::OracleControlAuthorized(p) => match state {
            ControllerWorkflowStateV1::OracleAdmissionAuthorized(a) => control_start(p, a, ReceiptList::Empty),
            ControllerWorkflowStateV1::OracleControlsObserved { authority, receipts } =>
                control_start(p, authority, receipts),
            _ => Err(ControllerWorkflowError::InvalidHistory(HistoryFaultV1::IllegalTransition)),
        },
        ControllerWorkflowEventV1::OracleControlObserved(p) => match state {
            ControllerWorkflowStateV1::OracleControlAuthorized { authority, previous_receipts } => {
                if !p.dispatch_bound || !p.observation_bound || p.expected_receipt is None {
                    Err(ControllerWorkflowError::Binding)
                } else if p.run == authority.run && p.dispatch == authority.dispatch
                    && p.expected_receipt == Some(p.receipt)
                    && !previous_receipts.covers(p.receipt.item, p.receipt.control) {
                    if p.run_attempt != authority.admission.attempt {
                        Err(ControllerWorkflowError::InvalidHistory(HistoryFaultV1::OracleControlAttemptChanged))
                    } else {
                        Ok(ControllerWorkflowStateV1::OracleControlsObserved {
                            authority: authority.admission,
                            receipts: previous_receipts.pushed(p.receipt),
                        })
                    }
                } else {
                    Err(ControllerWorkflowError::InvalidHistory(HistoryFaultV1::OracleControlObservationChanged))
                }
            },
            _ => Err(ControllerWorkflowError::InvalidHistory(HistoryFaultV1::IllegalTransition)),
        },
        ControllerWorkflowEventV1::OracleAdmissionRecorded(p) => match state {
            ControllerWorkflowStateV1::OracleControlsObserved { authority, receipts } => {
                if p.expected_outcome == Some(p.outcome) && p.proposal == authority.portfolio.proposal
                    && p.policy == authority.portfolio.policy && p.mechanisms == authority.mechanisms
                    && p.attempt == authority.attempt && p.evidence_receipts == receipts {
                    Ok(ControllerWorkflowStateV1::OracleAdmitted { authority, evidence: p.evidence, outcome: p.outcome })
                } else {
                    Err(ControllerWorkflowError::InvalidHistory(HistoryFaultV1::OracleAdmissionOutcomeChanged))
                }
            },
            _ => Err(ControllerWorkflowError::InvalidHistory(HistoryFaultV1::IllegalTransition)),
        },
        ControllerWorkflowEventV1::CandidateOracleContractFrozen(p) => match state {
            ControllerWorkflowStateV1::OracleAdmitted { authority, evidence, outcome } => {
                if p.expected_contract == Some(p.contract) && p.expected_workspace == Some(p.workspace)
                    && p.proposal == authority.portfolio.proposal
                    && p.oracle_workspace == authority.portfolio.exploration.workspace && p.outcome == outcome {
                    Ok(ControllerWorkflowStateV1::CandidateOracleContractFrozen(FrozenCandidateOracleAuthorityV1 {
                        oracle: authority,
                        evidence,
                        outcome,
                        contract: p.contract,
                        workspace: p.workspace,
                    }))
                } else {
                    Err(ControllerWorkflowError::InvalidHistory(HistoryFaultV1::CandidateOracleAuthorityChanged))
                }
            },
            _ => Err(ControllerWorkflowError::InvalidHistory(HistoryFaultV1::IllegalTransition)),
        },
        ControllerWorkflowEventV1::CandidateProposalRequestFrozen(p) => match state {
            ControllerWorkflowStateV1::CandidateOracleContractFrozen(c) => {
                if p.request_identity != p.request_id {
                    Err(ControllerWorkflowError::InvalidHistory(HistoryFaultV1::CandidateRequestIdentityChanged))
                } else if !candidate_request_bound(task_id, c, p.request_facts) {
                    Err(ControllerWorkflowError::BindingMismatch)
                } else {
                    Ok(ControllerWorkflowStateV1::CandidateProposalRequestFrozen(FrozenCandidateProposalAuthorityV1 {
                        candidate: c,
                        request: p.request_id,
                        episode_id: p.episode_id,
                    }))
                }
            },
            _ => Err(ControllerWorkflowError::InvalidHistory(HistoryFaultV1::IllegalTransition)),
        },
        ControllerWorkflowEventV1::CandidateProposalEpisodeAuthorized(p) => match state {
            ControllerWorkflowStateV1::CandidateProposalRequestFrozen(a) => if p.request == a.request {
                Ok(ControllerWorkflowStateV1::CandidateProposalEpisodeAuthorized(a))
            } else {
                Err(ControllerWorkflowError::InvalidHistory(HistoryFaultV1::CandidateRequestChanged))
            },
            _ => Err(ControllerWorkflowError::InvalidHistory(HistoryFaultV1::IllegalTransition)),
        },
        ControllerWorkflowEventV1::CandidateProposalRecorded(p) => match state {
            ControllerWorkflowStateV1::CandidateProposalEpisodeAuthorized(a) => {
                if !(p.request_id == a.request && p.request_identity == p.request_id
                    && p.terminal_identity == p.terminal_id && p.terminal_bound && p.terminal_episode == a.episode_id) {
                    Err(ControllerWorkflowError::InvalidHistory(HistoryFaultV1::CandidateTerminalChanged))
                } else if !candidate_request_bound(task_id, a.candidate, p.request_facts) {
                    Err(ControllerWorkflowError::BindingMismatch)
                } else {
                    match p.published_proposal {
                        Some(proposal) => Ok(ControllerWorkflowStateV1::CandidateProposed {
                            authority: a,
                            terminal: p.terminal_id,
                            proposal,
                        }),
                        None => Err(ControllerWorkflowError::InvalidHistory(HistoryFaultV1::CandidateTerminalRoleChanged)),
                    }
                }
            },
            _ => Err(ControllerWorkflowError::InvalidHistory(HistoryFaultV1::IllegalTransition)),
        },
        ControllerWorkflowEventV1::CandidateBuildFrozen(p) => match state {
            ControllerWorkflowStateV1::CandidateProposed { authority, terminal, proposal } => {
                if p.request_proposal == proposal && p.request_plan == p.plan {
                    Ok(ControllerWorkflowStateV1::CandidateBuildFrozen(FrozenCandidateBuildAuthorityV1 {
                        candidate: authority,
                        terminal,
                        proposal,
                        plan: p.plan,
                        request: p.request,
                    }))
                } else {
                    Err(ControllerWorkflowError::InvalidHistory(HistoryFaultV1::CandidateBuildAuthorityChanged))
                }
            },
            _ => Err(ControllerWorkflowError::InvalidHistory(HistoryFaultV1::IllegalTransition)),
        },
        ControllerWorkflowEventV1::CandidateBuildAuthorized(p) => match state {
            ControllerWorkflowStateV1::CandidateBuildFrozen(a) => if p.request == a.request {
                Ok(ControllerWorkflowStateV1::CandidateBuildAuthorized(a))
            } else {
                Err(ControllerWorkflowError::InvalidHistory(HistoryFaultV1::CandidateBuildChanged))
            },
            _ => Err(ControllerWorkflowError::InvalidHistory(HistoryFaultV1::IllegalTransition)),
        },
        ControllerWorkflowEventV1::CandidateBuildObserved(p) => match state {
            ControllerWorkflowStateV1::CandidateBuildAuthorized(a) => {
                if p.request_identity == a.request && p.receipt_identity == p.receipt_id
                    && p.receipt_job == p.request_job && p.receipt_contract == p.request_contract {
                    Ok(ControllerWorkflowStateV1::CandidateBuildObserved {
                        authority: a,
                        receipt: p.receipt_identity,
                        outcome: p.outcome,
                    })
                } else {
                    Err(ControllerWorkflowError::InvalidHistory(HistoryFaultV1::CandidateBuildObservationChanged))
                }
            },
            _ => Err(ControllerWorkflowError::InvalidHistory(HistoryFaultV1::IllegalTransition)),
        },
        ControllerWorkflowEventV1::CandidateAdmissionAuthorized(p) => match state {
            ControllerWorkflowStateV1::CandidateBuildObserved { authority, receipt, .. } => {
                if p.expected_attempt is None {
                    Err(ControllerWorkflowError::Binding)
                } else if p.contract == authority.candidate.candidate.contract && p.proposal == authority.proposal
                    && p.expected_attempt == Some(p.attempt) && p.mechanisms == p.attempt_mechanisms {
                    Ok(ControllerWorkflowStateV1::CandidateAdmissionAuthorized(FrozenCandidateAdmissionAuthorityV1 {
                        build: authority,
                        receipt,
                        mechanisms: p.mechanisms,
                        attempt: p.attempt,
                    }))
                } else {
                    Err(ControllerWorkflowError::InvalidHistory(HistoryFaultV1::CandidateAdmissionAuthorityChanged))
                }
            },
            _ => Err(ControllerWorkflowError::InvalidHistory(HistoryFaultV1::IllegalTransition)),
        },
        ControllerWorkflowEventV1::CandidateAdmissionRecorded(p) => match state {
            ControllerWorkflowStateV1::CandidateAdmissionAuthorized(a) => {
                if p.expected_outcome is None {
                    Err(ControllerWorkflowError::Binding)
                } else if p.contract == a.build.candidate.candidate.contract && p.proposal == a.build.proposal
                    && p.mechanisms == a.mechanisms && p.attempt == a.attempt && p.evidence == p.outcome_evidence
                    && p.outcome_proposal == a.build.proposal && p.expected_outcome == Some(p.outcome) {
                    Ok(ControllerWorkflowStateV1::Terminal {
                        authority: a,
                        evidence: p.evidence,
                        outcome: p.outcome,
                        status: terminal_status_of(p.rejected_claims, p.partial_claims),
                    })
                } else {
                    Err(ControllerWorkflowError::InvalidHistory(HistoryFaultV1::CandidateAdmissionOutcomeChanged))
                }
            },
            _ => Err(ControllerWorkflowError::InvalidHistory(HistoryFaultV1::IllegalTransition)),
        },
    }
}

fn is_some_eq(o: Option<u64>, v: u64) -> (r: bool)
    ensures
        r == (o == Some(v)),
{
    match o {
        Some(x) => x == v,
        None => false,
    }
}

fn is_some_receipt(o: Option<OracleControlReceiptV1>, v: OracleControlReceiptV1) -> (r: bool)
    ensures
        r == (o == Some(v)),
{
    match o {
        Some(x) => x == v,
        None => false,
    }
}

/// Whether the task may still be cancelled from `state`.
pub fn is_cancellable(state: &ControllerWorkflowStateV1) -> (r: bool)
    ensures
        r == cancellable(*state),
{
    !matches!(
        state,
        ControllerWorkflowStateV1::NotFound | ControllerWorkflowStateV1::Cancelled
            | ControllerWorkflowStateV1::OracleAdmitted { .. } | ControllerWorkflowStateV1::Terminal { .. }
    )
}

/// Terminal status from the numbers of rejected and partial outcome claims.
pub fn terminal_status_from_counts(rejected_claims: u64, partial_claims: u64) -> (r: MigrationTerminalStatusV1)
    ensures
        r == terminal_status_of(rejected_claims, partial_claims),
{
    if rejected_claims > 0 {
        MigrationTerminalStatusV1::Rejected
    } else if partial_claims > 0 {
        MigrationTerminalStatusV1::Partial
    } else {
        MigrationTerminalStatusV1::Admitted
    }
}

/// Whether a Candidate request is bound to the frozen Candidate authority (see
/// `candidate_request_bound`).
pub fn request_bound(task_id: u64, authority: FrozenCandidateOracleAuthorityV1, facts: CandidateRequestFactsV1) -> (r: bool)
    ensures
        r == candidate_request_bound(task_id, authority, facts),
{
    facts.candidate_role && facts.workspace_task == task_id && facts.workspace == authority.workspace
        && facts.contract == authority.contract && facts.materials_bound
}

fn start_control(
    p: &OracleControlAuthorizedPayload,
    a: FrozenOracleAdmissionAuthorityV1,
    receipts: ReceiptList,
) -> (r: Result<ControllerWorkflowStateV1, ControllerWorkflowError>)
    ensures
        r == control_start(*p, a, receipts),
{
    if p.expected_run.is_none() || !p.dispatch_bound || !p.evidence_admissible {
        Err(ControllerWorkflowError::Binding)
    } else if is_some_eq(p.expected_run, p.run) && p.dispatch_run == p.run {
        Ok(ControllerWorkflowStateV1::OracleControlAuthorized {
            authority: FrozenOracleControlAuthorityV1 { admission: a, run: p.run, dispatch: p.dispatch },
            previous_receipts: receipts,
        })
    } else {
        Err(ControllerWorkflowError::InvalidHistory(HistoryFaultV1::OracleControlStartChanged))
    }
}

/// Applies one recorded event to the recovered state.
pub fn apply(
    task_id: u64,
    state: ControllerWorkflowStateV1,
    event: &ControllerWorkflowEventV1,
) -> (r: Result<ControllerWorkflowStateV1, ControllerWorkflowError>)
    ensures
        r == transition(task_id, state, *event),
{
    match event {
        ControllerWorkflowEventV1::WorkflowCancelled => if is_cancellable(&state) {
            Ok(ControllerWorkflowStateV1::Cancelled)
        } else {
            Err(ControllerWorkflowError::InvalidHistory(HistoryFaultV1::IllegalTransition))
        },
        ControllerWorkflowEventV1::WorkflowFrozen(p) => match state {
            ControllerWorkflowStateV1::NotFound => if p.authority.task_id == task_id {
                Ok(ControllerWorkflowStateV1::Frozen(p.authority))
            } else {
                Err(ControllerWorkflowError::InvalidHistory(HistoryFaultV1::TaskAuthorityChanged))
            },
            _ => Err(ControllerWorkflowError::InvalidHistory(HistoryFaultV1::IllegalTransition)),
        },
        ControllerWorkflowEventV1::SirEpisodeAuthorized(p) => match state {
            ControllerWorkflowStateV1::Frozen(a) => if p.request == a.request {
                Ok(ControllerWorkflowStateV1::SirEpisodeAuthorized(a))
            } else {
                Err(ControllerWorkflowError::InvalidHistory(HistoryFaultV1::SirRequestChanged))
            },
            _ => Err(ControllerWorkflowError::InvalidHistory(HistoryFaultV1::IllegalTransition)),
        },
        ControllerWorkflowEventV1::SirProposalRecorded(p) => match state {
            ControllerWorkflowStateV1::SirEpisodeAuthorized(a) => Ok(
                ControllerWorkflowStateV1::SirProposed { authority: a, terminal: p.terminal, proposal: p.proposal },
            ),
            _ => Err(ControllerWorkflowError::InvalidHistory(HistoryFaultV1::IllegalTransition)),
        },
        ControllerWorkflowEventV1::IntentDecisionRequestsRecorded(p) => match state {
            ControllerWorkflowStateV1::SirProposed { authority, terminal, proposal } => Ok(
                ControllerWorkflowStateV1::AwaitingUserIntentDecision { authority, terminal, proposal, requests: p.requests },
            ),
            _ => Err(ControllerWorkflowError::InvalidHistory(HistoryFaultV1::IllegalTransition)),
        },
        ControllerWorkflowEventV1::UserIntentDecisionRecorded(p) => match state {
            ControllerWorkflowStateV1::AwaitingUserIntentDecision { authority, terminal, proposal, requests } => Ok(
                ControllerWorkflowStateV1::UserIntentDecisionRecorded {
                    authority,
                    terminal,
                    proposal,
                    requests,
                    request: p.request,
                    authority_grant: p.authority_grant,
                    decision: p.decision,
                },
            ),
            _ => Err(ControllerWorkflowError::InvalidHistory(HistoryFaultV1::IllegalTransition)),
        },
        ControllerWorkflowEventV1::IntentAdmissionAuthorized(p) => match state {
            ControllerWorkflowStateV1::UserIntentDecisionRecorded {
                authority, terminal, proposal, requests, request, authority_grant, decision,
            } => if p.decision == decision {
                Ok(ControllerWorkflowStateV1::IntentAdmissionAuthorized {
                    authority, terminal, proposal, requests, request, authority_grant, decision,
                    executable: p.executable,
                    restricted_store: p.restricted_store,
                })
            } else {
                Err(ControllerWorkflowError::InvalidHistory(HistoryFaultV1::IntentAdmissionDecisionChanged))
            },
            ControllerWorkflowStateV1::IntentAdmissionBlocked {
                authority, terminal, proposal, requests, request, authority_grant, decision, ..
            } => if p.decision == decision {
                Ok(ControllerWorkflowStateV1::IntentAdmissionAuthorized {
                    authority, terminal, proposal, requests, request, authority_grant, decision,
                    executable: p.executable,
                    restricted_store: p.restricted_store,
                })
            } else {
                Err(ControllerWorkflowError::InvalidHistory(HistoryFaultV1::IntentAdmissionReauthorizationChanged))
            },
            _ => Err(ControllerWorkflowError::InvalidHistory(HistoryFaultV1::IllegalTransition)),
        },
        ControllerWorkflowEventV1::IntentAdmissionBlocked(p) => match state {
            ControllerWorkflowStateV1::IntentAdmissionAuthorized {
                authority, terminal, proposal, requests, request, authority_grant, decision, executable, restricted_store,
            } => if p.decision == decision && p.executable == executable && p.restricted_store == restricted_store {
                Ok(ControllerWorkflowStateV1::IntentAdmissionBlocked {
                    authority, terminal, proposal, requests, request, authority_grant, decision, executable,
                    restricted_store,
                    reason: p.reason,
                })
            } else {
                Err(ControllerWorkflowError::InvalidHistory(HistoryFaultV1::IntentAdmissionBlockedAuthorityChanged))
            },
            _ => Err(ControllerWorkflowError::InvalidHistory(HistoryFaultV1::IllegalTransition)),
        },
        ControllerWorkflowEventV1::AdmittedIntentRecorded(p) => match state {
            ControllerWorkflowStateV1::IntentAdmissionAuthorized {
                authority, terminal, proposal, requests, request, authority_grant, decision, executable, restricted_store,
            } => Ok(ControllerWorkflowStateV1::AdmittedIntent {
                authority, terminal, proposal, requests, request, authority_grant, decision, executable, restricted_store,
                outcome: p.outcome,
                contract: p.contract,
                contract_body: p.contract_body,
            }),
            _ => Err(ControllerWorkflowError::InvalidHistory(HistoryFaultV1::IllegalTransition)),
        },
        ControllerWorkflowEventV1::OracleExplorationOpened(p) => match state {
            ControllerWorkflowStateV1::AdmittedIntent { authority, outcome, contract, contract_body, .. } => {
                let o = p.authority;
                if !(contract_body.identity == contract && contract_body.task_id == task_id) {
                    Err(ControllerWorkflowError::InvalidHistory(HistoryFaultV1::ContractBodyChanged))
                } else if o.task_id == task_id && o.admitted_intent_outcome == outcome
                    && o.admitted_intent == contract && o.recovery_input == authority.recovery_input
                    && o.claims == contract_body.oracle_claims && o.ledger_revision == 1 {
                    Ok(ControllerWorkflowStateV1::OracleExplorationOpened(o))
                } else {
                    Err(ControllerWorkflowError::InvalidHistory(HistoryFaultV1::OracleExplorationChanged))
                }
            },
            _ => Err(ControllerWorkflowError::InvalidHistory(HistoryFaultV1::IllegalTransition)),
        },
        ControllerWorkflowEventV1::OracleStrategyAuthorized(p) => match state {
            ControllerWorkflowStateV1::OracleExplorationOpened(a) => {
                if is_some_eq(p.expected_started_ledger, p.started_ledger) && p.workspace == a.workspace
                    && p.catalog == a.strategy_catalog && p.previous_ledger == a.ledger
                    && p.previous_ledger_revision == a.ledger_revision && p.run_workspace == a.workspace {
                    Ok(ControllerWorkflowStateV1::OracleStrategyAuthorized(FrozenOracleStrategyAuthorityV1 {
                        exploration: FrozenOracleExplorationAuthorityV1 {
                            ledger: p.started_ledger,
                            ledger_revision: p.started_ledger_revision,
                            ..a
                        },
                        previous_ledger: a.ledger,
                        run: p.run,
                    }))
                } else {
                    Err(ControllerWorkflowError::InvalidHistory(HistoryFaultV1::OracleStrategyStartChanged))
                }
            },
            _ => Err(ControllerWorkflowError::InvalidHistory(HistoryFaultV1::IllegalTransition)),
        },
        ControllerWorkflowEventV1::OracleStrategyObservationsRecorded(p) => match state {
            ControllerWorkflowStateV1::OracleStrategyAuthorized(s) => {
                if is_some_eq(p.expected_next_ledger, p.next_ledger) && p.previous_ledger == s.exploration.ledger
                    && p.previous_ledger_revision == s.exploration.ledger_revision && p.run == s.run {
                    Ok(ControllerWorkflowStateV1::OracleStrategyAuthorized(FrozenOracleStrategyAuthorityV1 {
                        exploration: FrozenOracleExplorationAuthorityV1 {
                            ledger: p.next_ledger,
                            ledger_revision: p.next_ledger_revision,
                            ..s.exploration
                        },
                        ..s
                    }))
                } else {
                    Err(ControllerWorkflowError::InvalidHistory(HistoryFaultV1::OracleStrategyObservationsChanged))
                }
            },
            _ => Err(ControllerWorkflowError::InvalidHistory(HistoryFaultV1::IllegalTransition)),
        },
        ControllerWorkflowEventV1::OracleStrategySubmissionRecorded(p) => match state {
            ControllerWorkflowStateV1::OracleStrategyAuthorized(s) => match p.completion {
                CompletionBindingV1::Mismatch => Err(ControllerWorkflowError::BindingMismatch),
                CompletionBindingV1::Invalid => Err(ControllerWorkflowError::Binding),
                CompletionBindingV1::Bound => if is_some_eq(p.expected_next_ledger, p.next_ledger)
                    && p.workspace == s.exploration.workspace && p.previous_ledger == s.exploration.ledger
                    && p.previous_ledger_revision == s.exploration.ledger_revision && p.run == s.run {
                    Ok(ControllerWorkflowStateV1::OracleExplorationOpened(FrozenOracleExplorationAuthorityV1 {
                        ledger: p.next_ledger,
                        ledger_revision: p.next_ledger_revision,
                        ..s.exploration
                    }))
                } else {
                    Err(ControllerWorkflowError::InvalidHistory(HistoryFaultV1::OracleStrategySubmissionChanged))
                },
            },
            _ => Err(ControllerWorkflowError::InvalidHistory(HistoryFaultV1::IllegalTransition)),
        },
        ControllerWorkflowEventV1::OraclePortfolioFrozen(p) => match state {
            ControllerWorkflowStateV1::OracleExplorationOpened(e) => {
                if is_some_eq(p.expected_proposal, p.proposal) && p.ledger == e.ledger
                    && p.ledger_revision == e.ledger_revision && p.policy_is_strict {
                    Ok(ControllerWorkflowStateV1::OraclePortfolioFrozen(FrozenOraclePortfolioAuthorityV1 {
                        exploration: e,
                        proposal: p.proposal,
                        policy: p.policy,
                    }))
                } else {
                    Err(ControllerWorkflowError::InvalidHistory(HistoryFaultV1::PortfolioOrPolicyChanged))
                }
            },
            _ => Err(ControllerWorkflowError::InvalidHistory(HistoryFaultV1::IllegalTransition)),
        },
        ControllerWorkflowEventV1::OracleAdmissionAuthorized(p) => match state {
            ControllerWorkflowStateV1::OraclePortfolioFrozen(f) => {
                if is_some_eq(p.expected_attempt, p.attempt) && p.proposal == f.proposal && p.policy == f.policy {
                    Ok(ControllerWorkflowStateV1::OracleAdmissionAuthorized(FrozenOracleAdmissionAuthorityV1 {
                        portfolio: f,
                        mechanisms: p.mechanisms,
                        attempt: p.attempt,
                    }))
                } else {
                    Err(ControllerWorkflowError::InvalidHistory(HistoryFaultV1::OracleAdmissionStartChanged))
                }
            },
            _ => Err(ControllerWorkflowError::InvalidHistory(HistoryFaultV1::IllegalTransition)),
        },
        ControllerWorkflowEventV1::OracleControlAuthorized(p) => match state {
            ControllerWorkflowStateV1::OracleAdmissionAuthorized(a) => start_control(p, a, ReceiptList::Empty),
            ControllerWorkflowStateV1::OracleControlsObserved { authority, receipts } =>
                start_control(p, authority, receipts),
            _ => Err(ControllerWorkflowError::InvalidHistory(HistoryFaultV1::IllegalTransition)),
        },
        ControllerWorkflowEventV1::OracleControlObserved(p) => match state {
            ControllerWorkflowStateV1::OracleControlAuthorized { authority, previous_receipts } => {
                if !p.dispatch_bound || !p.observation_bound || p.expected_receipt.is_none() {
                    Err(ControllerWorkflowError::Binding)
                } else if p.run == authority.run && p.dispatch == authority.dispatch
                    && is_some_receipt(p.expected_receipt, p.receipt)
                    && !previous_receipts.has_cell(p.receipt.item, p.receipt.control) {
                    if p.run_attempt != authority.admission.attempt {
                        Err(ControllerWorkflowError::InvalidHistory(HistoryFaultV1::OracleControlAttemptChanged))
                    } else {
                        Ok(ControllerWorkflowStateV1::OracleControlsObserved {
                            authority: authority.admission,
                            receipts: previous_receipts.push(p.receipt),
                        })
                    }
                } else {
                    Err(ControllerWorkflowError::InvalidHistory(HistoryFaultV1::OracleControlObservationChanged))
                }
            },
            _ => Err(ControllerWorkflowError::InvalidHistory(HistoryFaultV1::IllegalTransition)),
        },
        ControllerWorkflowEventV1::OracleAdmissionRecorded(p) => match state {
            ControllerWorkflowStateV1::OracleControlsObserved { authority, receipts } => {
                if is_some_eq(p.expected_outcome, p.outcome) && p.proposal == authority.portfolio.proposal
                    && p.policy == authority.portfolio.policy && p.mechanisms == authority.mechanisms
                    && p.attempt == authority.attempt && p.evidence_receipts.same(&receipts) {
                    Ok(ControllerWorkflowStateV1::OracleAdmitted { authority, evidence: p.evidence, outcome: p.outcome })
                } else {
                    Err(ControllerWorkflowError::InvalidHistory(HistoryFaultV1::OracleAdmissionOutcomeChanged))
                }
            },
            _ => Err(ControllerWorkflowError::InvalidHistory(HistoryFaultV1::IllegalTransition)),
        },
        ControllerWorkflowEventV1::CandidateOracleContractFrozen(p) => match state {
            ControllerWorkflowStateV1::OracleAdmitted { authority, evidence, outcome } => {
                if is_some_eq(p.expected_contract, p.contract) && is_some_eq(p.expected_workspace, p.workspace)
                    && p.proposal == authority.portfolio.proposal
                    && p.oracle_workspace == authority.portfolio.exploration.workspace && p.outcome == outcome {
                    Ok(ControllerWorkflowStateV1::CandidateOracleContractFrozen(FrozenCandidateOracleAuthorityV1 {
                        oracle: authority,
                        evidence,
                        outcome,
                        contract: p.contract,
                        workspace: p.workspace,
                    }))
                } else {
                    Err(ControllerWorkflowError::InvalidHistory(HistoryFaultV1::CandidateOracleAuthorityChanged))
                }
            },
            _ => Err(ControllerWorkflowError::InvalidHistory(HistoryFaultV1::IllegalTransition)),
        },
        ControllerWorkflowEventV1::CandidateProposalRequestFrozen(p) => match state {
            ControllerWorkflowStateV1::CandidateOracleContractFrozen(c) => {
                if p.request_identity != p.request_id {
                    Err(ControllerWorkflowError::InvalidHistory(HistoryFaultV1::CandidateRequestIdentityChanged))
                } else if !request_bound(task_id, c, p.request_facts) {
                    Err(ControllerWorkflowError::BindingMismatch)
                } else {
                    Ok(ControllerWorkflowStateV1::CandidateProposalRequestFrozen(FrozenCandidateProposalAuthorityV1 {
                        candidate: c,
                        request: p.request_id,
                        episode_id: p.episode_id,
                    }))
                }
            },
            _ => Err(ControllerWorkflowError::InvalidHistory(HistoryFaultV1::IllegalTransition)),
        },
        ControllerWorkflowEventV1::CandidateProposalEpisodeAuthorized(p) => match state {
            ControllerWorkflowStateV1::CandidateProposalRequestFrozen(a) => if p.request == a.request {
                Ok(ControllerWorkflowStateV1::CandidateProposalEpisodeAuthorized(a))
            } else {
                Err(ControllerWorkflowError::InvalidHistory(HistoryFaultV1::CandidateRequestChanged))
            },
            _ => Err(ControllerWorkflowError::InvalidHistory(HistoryFaultV1::IllegalTransition)),
        },
        ControllerWorkflowEventV1::CandidateProposalRecorded(p) => match state {
            ControllerWorkflowStateV1::CandidateProposalEpisodeAuthorized(a) => {
                if !(p.request_id == a.request && p.request_identity == p.request_id
                    && p.terminal_identity == p.terminal_id && p.terminal_bound && p.terminal_episode == a.episode_id) {
                    Err(ControllerWorkflowError::InvalidHistory(HistoryFaultV1::CandidateTerminalChanged))
                } else if !request_bound(task_id, a.candidate, p.request_facts) {
                    Err(ControllerWorkflowError::BindingMismatch)
                } else {
                    match p.published_proposal {
                        Some(proposal) => Ok(ControllerWorkflowStateV1::CandidateProposed {
                            authority: a,
                            terminal: p.terminal_id,
                            proposal,
                        }),
                        None => Err(ControllerWorkflowError::InvalidHistory(HistoryFaultV1::CandidateTerminalRoleChanged)),
                    }
                }
            },
            _ => Err(ControllerWorkflowError::InvalidHistory(HistoryFaultV1::IllegalTransition)),
        },
        ControllerWorkflowEventV1::CandidateBuildFrozen(p) => match state {
            ControllerWorkflowStateV1::CandidateProposed { authority, terminal, proposal } => {
                if p.request_proposal == proposal && p.request_plan == p.plan {
                    Ok(ControllerWorkflowStateV1::CandidateBuildFrozen(FrozenCandidateBuildAuthorityV1 {
                        candidate: authority,
                        terminal,
                        proposal,
                        plan: p.plan,
                        request: p.request,
                    }))
                } else {
                    Err(ControllerWorkflowError::InvalidHistory(HistoryFaultV1::CandidateBuildAuthorityChanged))
                }
            },
            _ => Err(ControllerWorkflowError::InvalidHistory(HistoryFaultV1::IllegalTransition)),
        },
        ControllerWorkflowEventV1::CandidateBuildAuthorized(p) => match state {
            ControllerWorkflowStateV1::CandidateBuildFrozen(a) => if p.request == a.request {
                Ok(ControllerWorkflowStateV1::CandidateBuildAuthorized(a))
            } else {
                Err(ControllerWorkflowError::InvalidHistory(HistoryFaultV1::CandidateBuildChanged))
            },
            _ => Err(ControllerWorkflowError::InvalidHistory(HistoryFaultV1::IllegalTransition)),
        },
        ControllerWorkflowEventV1::CandidateBuildObserved(p) => match state {
            ControllerWorkflowStateV1::CandidateBuildAuthorized(a) => {
                if p.request_identity == a.request && p.receipt_identity == p.receipt_id
                    && p.receipt_job == p.request_job && p.receipt_contract == p.request_contract {
                    Ok(ControllerWorkflowStateV1::CandidateBuildObserved {
                        authority: a,
                        receipt: p.receipt_identity,
                        outcome: p.outcome,
                    })
                } else {
                    Err(ControllerWorkflowError::InvalidHistory(HistoryFaultV1::CandidateBuildObservationChanged))
                }
            },
            _ => Err(ControllerWorkflowError::InvalidHistory(HistoryFaultV1::IllegalTransition)),
        },
        ControllerWorkflowEventV1::CandidateAdmissionAuthorized(p) => match state {
            ControllerWorkflowStateV1::CandidateBuildObserved { authority, receipt, .. } => {
                if p.expected_attempt.is_none() {
                    Err(ControllerWorkflowError::Binding)
                } else if p.contract == authority.candidate.candidate.contract && p.proposal == authority.proposal
                    && is_some_eq(p.expected_attempt, p.attempt) && p.mechanisms == p.attempt_mechanisms {
                    Ok(ControllerWorkflowStateV1::CandidateAdmissionAuthorized(FrozenCandidateAdmissionAuthorityV1 {
                        build: authority,
                        receipt,
                        mechanisms: p.mechanisms,
                        attempt: p.attempt,
                    }))
                } else {
                    Err(ControllerWorkflowError::InvalidHistory(HistoryFaultV1::CandidateAdmissionAuthorityChanged))
                }
            },
            _ => Err(ControllerWorkflowError::InvalidHistory(HistoryFaultV1::IllegalTransition)),
        },
        ControllerWorkflowEventV1::CandidateAdmissionRecorded(p) => match state {
            ControllerWorkflowStateV1::CandidateAdmissionAuthorized(a) => {
                if p.expected_outcome.is_none() {
                    Err(ControllerWorkflowError::Binding)
                } else if p.contract == a.build.candidate.candidate.contract && p.proposal == a.build.proposal
                    && p.mechanisms == a.mechanisms && p.attempt == a.attempt && p.evidence == p.outcome_evidence
                    && p.outcome_proposal == a.build.proposal && is_some_eq(p.expected_outcome, p.outcome) {
                    Ok(ControllerWorkflowStateV1::Terminal {
                        authority: a,
                        evidence: p.evidence,
                        outcome: p.outcome,
                        status: terminal_status_from_counts(p.rejected_claims, p.partial_claims),
                    })
                } else {
                    Err(ControllerWorkflowError::InvalidHistory(HistoryFaultV1::CandidateAdmissionOutcomeChanged))
                }
            },
            _ => Err(ControllerWorkflowError::InvalidHistory(HistoryFaultV1::IllegalTransition)),
        },
    }
}


} // verus!
