use vstd::prelude::*;

use crate::controller::types::{
    FrozenCandidateAdmissionAuthorityV1, FrozenCandidateBuildAuthorityV1,
    FrozenCandidateOracleAuthorityV1, FrozenCandidateProposalAuthorityV1,
    FrozenOracleAdmissionAuthorityV1, FrozenOracleControlAuthorityV1,
    FrozenOracleExplorationAuthorityV1, FrozenOraclePortfolioAuthorityV1,
    FrozenOracleStrategyAuthorityV1, FrozenSirAuthorityV1, IntentAdmissionBlockReasonV1,
    IntentContractBodyV1, MigrationTerminalStatusV1, ReceiptList,
};

verus! {

/// Durable Controller state reconstructed only from the current-V1 event stream.
#[derive(Debug, PartialEq, Eq)]
pub enum ControllerWorkflowStateV1 {
    NotFound,
    Cancelled,
    Frozen(FrozenSirAuthorityV1),
    SirEpisodeAuthorized(FrozenSirAuthorityV1),
    SirProposed { authority: FrozenSirAuthorityV1, terminal: u64, proposal: u64 },
    AwaitingUserIntentDecision {
        authority: FrozenSirAuthorityV1,
        terminal: u64,
        proposal: u64,
        requests: u64,
    },
    UserIntentDecisionRecorded {
        authority: FrozenSirAuthorityV1,
        terminal: u64,
        proposal: u64,
        requests: u64,
        request: u64,
        authority_grant: u64,
        decision: u64,
    },
    IntentAdmissionAuthorized {
        authority: FrozenSirAuthorityV1,
        terminal: u64,
        proposal: u64,
        requests: u64,
        request: u64,
        authority_grant: u64,
        decision: u64,
        executable: u64,
        restricted_store: u64,
    },
    IntentAdmissionBlocked {
        authority: FrozenSirAuthorityV1,
        terminal: u64,
        proposal: u64,
        requests: u64,
        request: u64,
        authority_grant: u64,
        decision: u64,
        executable: u64,
        restricted_store: u64,
        reason: IntentAdmissionBlockReasonV1,
    },
    AdmittedIntent {
        authority: FrozenSirAuthorityV1,
        terminal: u64,
        proposal: u64,
        requests: u64,
        request: u64,
        authority_grant: u64,
        decision: u64,
        executable: u64,
        restricted_store: u64,
        outcome: u64,
        contract: u64,
        contract_body: IntentContractBodyV1,
    },
    OracleExplorationOpened(FrozenOracleExplorationAuthorityV1),
    OracleStrategyAuthorized(FrozenOracleStrategyAuthorityV1),
    OraclePortfolioFrozen(FrozenOraclePortfolioAuthorityV1),
    OracleAdmissionAuthorized(FrozenOracleAdmissionAuthorityV1),
    OracleControlAuthorized {
        authority: FrozenOracleControlAuthorityV1,
        previous_receipts: ReceiptList,
    },
    OracleControlsObserved { authority: FrozenOracleAdmissionAuthorityV1, receipts: ReceiptList },
    OracleAdmitted { authority: FrozenOracleAdmissionAuthorityV1, evidence: u64, outcome: u64 },
    CandidateOracleContractFrozen(FrozenCandidateOracleAuthorityV1),
    CandidateProposalRequestFrozen(FrozenCandidateProposalAuthorityV1),
    CandidateProposalEpisodeAuthorized(FrozenCandidateProposalAuthorityV1),
    CandidateProposed { authority: FrozenCandidateProposalAuthorityV1, terminal: u64, proposal: u64 },
    CandidateBuildFrozen(FrozenCandidateBuildAuthorityV1),
    CandidateBuildAuthorized(FrozenCandidateBuildAuthorityV1),
    CandidateBuildObserved {
        authority: FrozenCandidateBuildAuthorityV1,
        receipt: u64,
        /// Stable code of the execution outcome recorded in the receipt.
        outcome: u64,
    },
    CandidateAdmissionAuthorized(FrozenCandidateAdmissionAuthorityV1),
    Terminal {
        authority: FrozenCandidateAdmissionAuthorityV1,
        evidence: u64,
        outcome: u64,
        status: MigrationTerminalStatusV1,
    },
}

/// One business action selected from recovered durable Controller state.
#[derive(Debug, PartialEq, Eq)]
pub enum ControllerWorkflowNextActionV1 {
    NoAction,
    AuthorizeSirEpisode(FrozenSirAuthorityV1),
    RunSirEpisode(FrozenSirAuthorityV1),
    DeriveIntentDecisionRequests { authority: FrozenSirAuthorityV1, terminal: u64, proposal: u64 },
    AwaitUserIntentDecision { proposal: u64, requests: u64 },
    AuthorizeIntentAdmission { decision: u64 },
    RunIntentAdmission { decision: u64, executable: u64, restricted_store: u64 },
    AwaitOracleExplorationWorkspace { outcome: u64, contract: u64 },
    RunOracleExploration(FrozenOracleExplorationAuthorityV1),
    RunOracleStrategy(FrozenOracleStrategyAuthorityV1),
    AwaitOracleAdmissionMechanisms(FrozenOraclePortfolioAuthorityV1),
    RunOracleAdmissionControls { authority: FrozenOracleAdmissionAuthorityV1, receipts: ReceiptList },
    ExecuteOracleAdmissionControl {
        authority: FrozenOracleControlAuthorityV1,
        previous_receipts: ReceiptList,
    },
    PrepareCandidateOracleContract {
        authority: FrozenOracleAdmissionAuthorityV1,
        evidence: u64,
        outcome: u64,
    },
    AwaitCandidateProposalLoop(FrozenCandidateOracleAuthorityV1),
    AuthorizeCandidateProposalEpisode(FrozenCandidateProposalAuthorityV1),
    RunCandidateProposalEpisode(FrozenCandidateProposalAuthorityV1),
    AwaitCandidateBuild { authority: FrozenCandidateProposalAuthorityV1, terminal: u64, proposal: u64 },
    AuthorizeCandidateBuild(FrozenCandidateBuildAuthorityV1),
    RunCandidateBuild(FrozenCandidateBuildAuthorityV1),
    AwaitCandidateAdmissionMechanisms {
        authority: FrozenCandidateBuildAuthorityV1,
        receipt: u64,
        outcome: u64,
    },
    AwaitCandidateControlReceipts(FrozenCandidateAdmissionAuthorityV1),
    Terminal { outcome: u64, status: MigrationTerminalStatusV1 },
}

/// The business action owed in each durable state.
pub open spec fn next_action_of(state: ControllerWorkflowStateV1) -> ControllerWorkflowNextActionV1 {
    match state {
        ControllerWorkflowStateV1::NotFound
        | ControllerWorkflowStateV1::Cancelled
        | ControllerWorkflowStateV1::IntentAdmissionBlocked { .. }
        | ControllerWorkflowStateV1::OracleAdmitted { .. } => ControllerWorkflowNextActionV1::NoAction,
        ControllerWorkflowStateV1::Frozen(a) => ControllerWorkflowNextActionV1::AuthorizeSirEpisode(a),
        ControllerWorkflowStateV1::SirEpisodeAuthorized(a) => ControllerWorkflowNextActionV1::RunSirEpisode(a),
        ControllerWorkflowStateV1::SirProposed { authority, terminal, proposal } =>
            ControllerWorkflowNextActionV1::DeriveIntentDecisionRequests { authority, terminal, proposal },
        ControllerWorkflowStateV1::AwaitingUserIntentDecision { proposal, requests, .. } =>
            ControllerWorkflowNextActionV1::AwaitUserIntentDecision { proposal, requests },
        ControllerWorkflowStateV1::UserIntentDecisionRecorded { decision, .. } =>
            ControllerWorkflowNextActionV1::AuthorizeIntentAdmission { decision },
        ControllerWorkflowStateV1::IntentAdmissionAuthorized { decision, executable, restricted_store, .. } =>
            ControllerWorkflowNextActionV1::RunIntentAdmission { decision, executable, restricted_store },
        ControllerWorkflowStateV1::AdmittedIntent { outcome, contract, .. } =>
            ControllerWorkflowNextActionV1::AwaitOracleExplorationWorkspace { outcome, contract },
        ControllerWorkflowStateV1::OracleExplorationOpened(a) => ControllerWorkflowNextActionV1::RunOracleExploration(a),
        ControllerWorkflowStateV1::OracleStrategyAuthorized(a) => ControllerWorkflowNextActionV1::RunOracleStrategy(a),
        ControllerWorkflowStateV1::OraclePortfolioFrozen(a) => ControllerWorkflowNextActionV1::AwaitOracleAdmissionMechanisms(a),
        ControllerWorkflowStateV1::OracleAdmissionAuthorized(a) =>
            ControllerWorkflowNextActionV1::RunOracleAdmissionControls { authority: a, receipts: ReceiptList::Empty },
        ControllerWorkflowStateV1::OracleControlAuthorized { authority, previous_receipts } =>
            ControllerWorkflowNextActionV1::ExecuteOracleAdmissionControl { authority, previous_receipts },
        ControllerWorkflowStateV1::OracleControlsObserved { authority, receipts } =>
            ControllerWorkflowNextActionV1::RunOracleAdmissionControls { authority, receipts },
        ControllerWorkflowStateV1::CandidateOracleContractFrozen(a) =>
            ControllerWorkflowNextActionV1::AwaitCandidateProposalLoop(a),
        ControllerWorkflowStateV1::CandidateProposalRequestFrozen(a) =>
            ControllerWorkflowNextActionV1::AuthorizeCandidateProposalEpisode(a),
        ControllerWorkflowStateV1::CandidateProposalEpisodeAuthorized(a) =>
            ControllerWorkflowNextActionV1::RunCandidateProposalEpisode(a),
        ControllerWorkflowStateV1::CandidateProposed { authority, terminal, proposal } =>
            ControllerWorkflowNextActionV1::AwaitCandidateBuild { authority, terminal, proposal },
        ControllerWorkflowStateV1::CandidateBuildFrozen(a) => ControllerWorkflowNextActionV1::AuthorizeCandidateBuild(a),
        ControllerWorkflowStateV1::CandidateBuildAuthorized(a) => ControllerWorkflowNextActionV1::RunCandidateBuild(a),
        ControllerWorkflowStateV1::CandidateBuildObserved { authority, receipt, outcome } =>
            ControllerWorkflowNextActionV1::AwaitCandidateAdmissionMechanisms { authority, receipt, outcome },
        ControllerWorkflowStateV1::CandidateAdmissionAuthorized(a) =>
            ControllerWorkflowNextActionV1::AwaitCandidateControlReceipts(a),
        ControllerWorkflowStateV1::Terminal { outcome, status, .. } =>
            ControllerWorkflowNextActionV1::Terminal { outcome, status },
    }
}

impl ControllerWorkflowStateV1 {
    /// Selects the next architectural step without performing it.
    pub fn next_action(&self) -> (r: ControllerWorkflowNextActionV1)
        ensures
            r == next_action_of(*self),
    {
        match self {
            ControllerWorkflowStateV1::NotFound
            | ControllerWorkflowStateV1::Cancelled
            | ControllerWorkflowStateV1::IntentAdmissionBlocked { .. }
            | ControllerWorkflowStateV1::OracleAdmitted { .. } => ControllerWorkflowNextActionV1::NoAction,
            ControllerWorkflowStateV1::Frozen(a) => ControllerWorkflowNextActionV1::AuthorizeSirEpisode(*a),
            ControllerWorkflowStateV1::SirEpisodeAuthorized(a) => ControllerWorkflowNextActionV1::RunSirEpisode(*a),
            ControllerWorkflowStateV1::SirProposed { authority, terminal, proposal } =>
                ControllerWorkflowNextActionV1::DeriveIntentDecisionRequests {
                    authority: *authority,
                    terminal: *terminal,
                    proposal: *proposal,
                },
            ControllerWorkflowStateV1::AwaitingUserIntentDecision { proposal, requests, .. } =>
                ControllerWorkflowNextActionV1::AwaitUserIntentDecision { proposal: *proposal, requests: *requests },
            ControllerWorkflowStateV1::UserIntentDecisionRecorded { decision, .. } =>
                ControllerWorkflowNextActionV1::AuthorizeIntentAdmission { decision: *decision },
            ControllerWorkflowStateV1::IntentAdmissionAuthorized { decision, executable, restricted_store, .. } =>
                ControllerWorkflowNextActionV1::RunIntentAdmission {
                    decision: *decision,
                    executable: *executable,
                    restricted_store: *restricted_store,
                },
            ControllerWorkflowStateV1::AdmittedIntent { outcome, contract, .. } =>
                ControllerWorkflowNextActionV1::AwaitOracleExplorationWorkspace { outcome: *outcome, contract: *contract },
            ControllerWorkflowStateV1::OracleExplorationOpened(a) => ControllerWorkflowNextActionV1::RunOracleExploration(*a),
            ControllerWorkflowStateV1::OracleStrategyAuthorized(a) => ControllerWorkflowNextActionV1::RunOracleStrategy(*a),
            ControllerWorkflowStateV1::OraclePortfolioFrozen(a) =>
                ControllerWorkflowNextActionV1::AwaitOracleAdmissionMechanisms(*a),
            ControllerWorkflowStateV1::OracleAdmissionAuthorized(a) =>
                ControllerWorkflowNextActionV1::RunOracleAdmissionControls { authority: *a, receipts: ReceiptList::Empty },
            ControllerWorkflowStateV1::OracleControlAuthorized { authority, previous_receipts } =>
                ControllerWorkflowNextActionV1::ExecuteOracleAdmissionControl {
                    authority: *authority,
                    previous_receipts: previous_receipts.copy(),
                },
            ControllerWorkflowStateV1::OracleControlsObserved { authority, receipts } =>
                ControllerWorkflowNextActionV1::RunOracleAdmissionControls { authority: *authority, receipts: receipts.copy() },
            ControllerWorkflowStateV1::CandidateOracleContractFrozen(a) =>
                ControllerWorkflowNextActionV1::AwaitCandidateProposalLoop(*a),
            ControllerWorkflowStateV1::CandidateProposalRequestFrozen(a) =>
                ControllerWorkflowNextActionV1::AuthorizeCandidateProposalEpisode(*a),
            ControllerWorkflowStateV1::CandidateProposalEpisodeAuthorized(a) =>
                ControllerWorkflowNextActionV1::RunCandidateProposalEpisode(*a),
            ControllerWorkflowStateV1::CandidateProposed { authority, terminal, proposal } =>
                ControllerWorkflowNextActionV1::AwaitCandidateBuild {
                    authority: *authority,
                    terminal: *terminal,
                    proposal: *proposal,
                },
            ControllerWorkflowStateV1::CandidateBuildFrozen(a) => ControllerWorkflowNextActionV1::AuthorizeCandidateBuild(*a),
            ControllerWorkflowStateV1::CandidateBuildAuthorized(a) => ControllerWorkflowNextActionV1::RunCandidateBuild(*a),
            ControllerWorkflowStateV1::CandidateBuildObserved { authority, receipt, outcome } =>
                ControllerWorkflowNextActionV1::AwaitCandidateAdmissionMechanisms {
                    authority: *authority,
                    receipt: *receipt,
                    outcome: *outcome,
                },
            ControllerWorkflowStateV1::CandidateAdmissionAuthorized(a) =>
                ControllerWorkflowNextActionV1::AwaitCandidateControlReceipts(*a),
            ControllerWorkflowStateV1::Terminal { outcome, status, .. } =>
                ControllerWorkflowNextActionV1::Terminal { outcome: *outcome, status: *status },
        }
    }

    /// Returns an equal copy of the state.
    pub fn copy(&self) -> (r: ControllerWorkflowStateV1)
        ensures
            r == *self,
    {
        match self {
            ControllerWorkflowStateV1::NotFound => ControllerWorkflowStateV1::NotFound,
            ControllerWorkflowStateV1::Cancelled => ControllerWorkflowStateV1::Cancelled,
            ControllerWorkflowStateV1::Frozen(a) => ControllerWorkflowStateV1::Frozen(*a),
            ControllerWorkflowStateV1::SirEpisodeAuthorized(a) => ControllerWorkflowStateV1::SirEpisodeAuthorized(*a),
            ControllerWorkflowStateV1::SirProposed { authority, terminal, proposal } =>
                ControllerWorkflowStateV1::SirProposed { authority: *authority, terminal: *terminal, proposal: *proposal },
            ControllerWorkflowStateV1::AwaitingUserIntentDecision { authority, terminal, proposal, requests } =>
                ControllerWorkflowStateV1::AwaitingUserIntentDecision {
                    authority: *authority,
                    terminal: *terminal,
                    proposal: *proposal,
                    requests: *requests,
                },
            ControllerWorkflowStateV1::UserIntentDecisionRecorded {
                authority, terminal, proposal, requests, request, authority_grant, decision,
            } => ControllerWorkflowStateV1::UserIntentDecisionRecorded {
                authority: *authority,
                terminal: *terminal,
                proposal: *proposal,
                requests: *requests,
                request: *request,
                authority_grant: *authority_grant,
                decision: *decision,
            },
            ControllerWorkflowStateV1::IntentAdmissionAuthorized {
                authority, terminal, proposal, requests, request, authority_grant, decision, executable, restricted_store,
            } => ControllerWorkflowStateV1::IntentAdmissionAuthorized {
                authority: *authority,
                terminal: *terminal,
                proposal: *proposal,
                requests: *requests,
                request: *request,
                authority_grant: *authority_grant,
                decision: *decision,
                executable: *executable,
                restricted_store: *restricted_store,
            },
            ControllerWorkflowStateV1::IntentAdmissionBlocked {
                authority, terminal, proposal, requests, request, authority_grant, decision, executable,
                restricted_store, reason,
            } => ControllerWorkflowStateV1::IntentAdmissionBlocked {
                authority: *authority,
                terminal: *terminal,
                proposal: *proposal,
                requests: *requests,
                request: *request,
                authority_grant: *authority_grant,
                decision: *decision,
                executable: *executable,
                restricted_store: *restricted_store,
                reason: *reason,
            },
            ControllerWorkflowStateV1::AdmittedIntent {
                authority, terminal, proposal, requests, request, authority_grant, decision, executable,
                restricted_store, outcome, contract, contract_body,
            } => ControllerWorkflowStateV1::AdmittedIntent {
                authority: *authority,
                terminal: *terminal,
                proposal: *proposal,
                requests: *requests,
                request: *request,
                authority_grant: *authority_grant,
                decision: *decision,
                executable: *executable,
                restricted_store: *restricted_store,
                outcome: *outcome,
                contract: *contract,
                contract_body: *contract_body,
            },
            ControllerWorkflowStateV1::OracleExplorationOpened(a) => ControllerWorkflowStateV1::OracleExplorationOpened(*a),
            ControllerWorkflowStateV1::OracleStrategyAuthorized(a) => ControllerWorkflowStateV1::OracleStrategyAuthorized(*a),
            ControllerWorkflowStateV1::OraclePortfolioFrozen(a) => ControllerWorkflowStateV1::OraclePortfolioFrozen(*a),
            ControllerWorkflowStateV1::OracleAdmissionAuthorized(a) => ControllerWorkflowStateV1::OracleAdmissionAuthorized(*a),
            ControllerWorkflowStateV1::OracleControlAuthorized { authority, previous_receipts } =>
                ControllerWorkflowStateV1::OracleControlAuthorized {
                    authority: *authority,
                    previous_receipts: previous_receipts.copy(),
                },
            ControllerWorkflowStateV1::OracleControlsObserved { authority, receipts } =>
                ControllerWorkflowStateV1::OracleControlsObserved { authority: *authority, receipts: receipts.copy() },
            ControllerWorkflowStateV1::OracleAdmitted { authority, evidence, outcome } =>
                ControllerWorkflowStateV1::OracleAdmitted { authority: *authority, evidence: *evidence, outcome: *outcome },
            ControllerWorkflowStateV1::CandidateOracleContractFrozen(a) =>
                ControllerWorkflowStateV1::CandidateOracleContractFrozen(*a),
            ControllerWorkflowStateV1::CandidateProposalRequestFrozen(a) =>
                ControllerWorkflowStateV1::CandidateProposalRequestFrozen(*a),
            ControllerWorkflowStateV1::CandidateProposalEpisodeAuthorized(a) =>
                ControllerWorkflowStateV1::CandidateProposalEpisodeAuthorized(*a),
            ControllerWorkflowStateV1::CandidateProposed { authority, terminal, proposal } =>
                ControllerWorkflowStateV1::CandidateProposed { authority: *authority, terminal: *terminal, proposal: *proposal },
            ControllerWorkflowStateV1::CandidateBuildFrozen(a) => ControllerWorkflowStateV1::CandidateBuildFrozen(*a),
            ControllerWorkflowStateV1::CandidateBuildAuthorized(a) => ControllerWorkflowStateV1::CandidateBuildAuthorized(*a),
            ControllerWorkflowStateV1::CandidateBuildObserved { authority, receipt, outcome } =>
                ControllerWorkflowStateV1::CandidateBuildObserved { authority: *authority, receipt: *receipt, outcome: *outcome },
            ControllerWorkflowStateV1::CandidateAdmissionAuthorized(a) =>
                ControllerWorkflowStateV1::CandidateAdmissionAuthorized(*a),
            ControllerWorkflowStateV1::Terminal { authority, evidence, outcome, status } =>
                ControllerWorkflowStateV1::Terminal {
                    authority: *authority,
                    evidence: *evidence,
                    outcome: *outcome,
                    status: *status,
                },
        }
    }
}

} // verus!
