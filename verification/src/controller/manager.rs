use vstd::prelude::*;

use crate::controller::state::{ControllerWorkflowNextActionV1, ControllerWorkflowStateV1, next_action_of};
use crate::controller::types::{
    FrozenCandidateAdmissionAuthorityV1, FrozenCandidateBuildAuthorityV1, FrozenCandidateOracleAuthorityV1,
    FrozenCandidateProposalAuthorityV1, FrozenOracleExplorationAuthorityV1, FrozenOraclePortfolioAuthorityV1,
    FrozenOracleStrategyAuthorityV1, MigrationTerminalStatusV1,
};
use crate::server::error::ServerError;
use crate::supervisor::intent_admission::IntentAdmissionProcessBlockedV1;
use crate::supervisor::proposal_host::ProposalHostProcessBlockedV1;

verus! {

/// What one manager turn reports without performing any effect.
#[derive(Clone, Copy, Debug, PartialEq, Eq, Structural)]
pub enum ControllerWorkflowManagerStatusV1 {
    Idle,
    /// The turn committed one durable transition.
    Advanced,
    /// A Proposal Host episode stopped and needs reconciliation; no replacement is started.
    ProposalHostBlocked { episode_id: u64, reason: ProposalHostProcessBlockedV1 },
    /// A Proposal Host episode yielded an effect that the Controller must execute.
    AwaitingControllerExperiment { experiment: u64 },
    /// An Intent Admission run stopped and needs reconciliation.
    IntentAdmissionBlocked { decision: u64, reason: IntentAdmissionProcessBlockedV1 },
    /// A deterministic Oracle strategy waits for its submission.
    OracleStrategyReady { authority: FrozenOracleStrategyAuthorityV1 },
    /// Oracle Admission admitted no claim, so no Candidate authority follows.
    OracleAdmissionHasNoCandidateAuthority { outcome: u64 },
    AwaitingUserIntentDecision { proposal: u64, requests: u64 },
    AwaitingOracleExplorationWorkspace { outcome: u64, contract: u64 },
    AwaitingOracleAdmissionMechanisms { authority: FrozenOraclePortfolioAuthorityV1 },
    AwaitingCandidateProposalLoop { authority: FrozenCandidateOracleAuthorityV1 },
    AwaitingCandidateBuild { authority: FrozenCandidateProposalAuthorityV1, terminal: u64, proposal: u64 },
    CandidateBuildReady { authority: FrozenCandidateBuildAuthorityV1 },
    AwaitingCandidateAdmissionMechanisms { authority: FrozenCandidateBuildAuthorityV1, receipt: u64, outcome: u64 },
    AwaitingCandidateControlReceipts { authority: FrozenCandidateAdmissionAuthorityV1 },
    Terminal { outcome: u64, status: MigrationTerminalStatusV1 },
    /// The exploration ledger asks for an Oracle experiment that another actor must authorize.
    AwaitingOracleExperiment { ledger: u64, request: u64 },
    /// The exploration waits for the observation of its running strategy.
    OracleExplorationReady { authority: FrozenOracleExplorationAuthorityV1 },
    /// The exploration budget is spent before a portfolio could be frozen.
    OracleExplorationBudgetExhausted { ledger: u64 },
}

/// One manager turn: report a waiting or idle status, or perform the action's effect.
#[derive(Debug, PartialEq, Eq)]
pub enum ManagerTurnV1 {
    Report(ControllerWorkflowManagerStatusV1),
    Perform(ControllerWorkflowNextActionV1),
}

/// The turn owed for a selected action: actions that only wait on something outside the
/// Controller, and a build ready for a worker, are reported; every other action is performed.
pub open spec fn turn_for(action: ControllerWorkflowNextActionV1) -> ManagerTurnV1 {
    match action {
        ControllerWorkflowNextActionV1::NoAction => ManagerTurnV1::Report(ControllerWorkflowManagerStatusV1::Idle),
        ControllerWorkflowNextActionV1::AwaitUserIntentDecision { proposal, requests } =>
            ManagerTurnV1::Report(ControllerWorkflowManagerStatusV1::AwaitingUserIntentDecision { proposal, requests }),
        ControllerWorkflowNextActionV1::AwaitOracleExplorationWorkspace { outcome, contract } =>
            ManagerTurnV1::Report(ControllerWorkflowManagerStatusV1::AwaitingOracleExplorationWorkspace { outcome, contract }),
        ControllerWorkflowNextActionV1::AwaitOracleAdmissionMechanisms(authority) =>
            ManagerTurnV1::Report(ControllerWorkflowManagerStatusV1::AwaitingOracleAdmissionMechanisms { authority }),
        ControllerWorkflowNextActionV1::AwaitCandidateProposalLoop(authority) =>
            ManagerTurnV1::Report(ControllerWorkflowManagerStatusV1::AwaitingCandidateProposalLoop { authority }),
        ControllerWorkflowNextActionV1::AwaitCandidateBuild { authority, terminal, proposal } =>
            ManagerTurnV1::Report(ControllerWorkflowManagerStatusV1::AwaitingCandidateBuild { authority, terminal, proposal }),
        ControllerWorkflowNextActionV1::RunCandidateBuild(authority) =>
            ManagerTurnV1::Report(ControllerWorkflowManagerStatusV1::CandidateBuildReady { authority }),
        ControllerWorkflowNextActionV1::AwaitCandidateAdmissionMechanisms { authority, receipt, outcome } =>
            ManagerTurnV1::Report(
                ControllerWorkflowManagerStatusV1::AwaitingCandidateAdmissionMechanisms { authority, receipt, outcome },
            ),
        ControllerWorkflowNextActionV1::AwaitCandidateControlReceipts(authority) =>
            ManagerTurnV1::Report(ControllerWorkflowManagerStatusV1::AwaitingCandidateControlReceipts { authority }),
        ControllerWorkflowNextActionV1::Terminal { outcome, status } =>
            ManagerTurnV1::Report(ControllerWorkflowManagerStatusV1::Terminal { outcome, status }),
        other => ManagerTurnV1::Perform(other),
    }
}

/// Plans one manager turn from the recovered state: the state selects its action, and the
/// action is reported or performed.
pub fn plan_controller_turn(state: &ControllerWorkflowStateV1) -> (r: ManagerTurnV1)
    ensures
        r == turn_for(next_action_of(*state)),
{
    let action = state.next_action();
    match action {
        ControllerWorkflowNextActionV1::NoAction => ManagerTurnV1::Report(ControllerWorkflowManagerStatusV1::Idle),
        ControllerWorkflowNextActionV1::AwaitUserIntentDecision { proposal, requests } =>
            ManagerTurnV1::Report(ControllerWorkflowManagerStatusV1::AwaitingUserIntentDecision { proposal, requests }),
        ControllerWorkflowNextActionV1::AwaitOracleExplorationWorkspace { outcome, contract } =>
            ManagerTurnV1::Report(ControllerWorkflowManagerStatusV1::AwaitingOracleExplorationWorkspace { outcome, contract }),
        ControllerWorkflowNextActionV1::AwaitOracleAdmissionMechanisms(authority) =>
            ManagerTurnV1::Report(ControllerWorkflowManagerStatusV1::AwaitingOracleAdmissionMechanisms { authority }),
        ControllerWorkflowNextActionV1::AwaitCandidateProposalLoop(authority) =>
            ManagerTurnV1::Report(ControllerWorkflowManagerStatusV1::AwaitingCandidateProposalLoop { authority }),
        ControllerWorkflowNextActionV1::AwaitCandidateBuild { authority, terminal, proposal } =>
            ManagerTurnV1::Report(ControllerWorkflowManagerStatusV1::AwaitingCandidateBuild { authority, terminal, proposal }),
        ControllerWorkflowNextActionV1::RunCandidateBuild(authority) =>
            ManagerTurnV1::Report(ControllerWorkflowManagerStatusV1::CandidateBuildReady { authority }),
        ControllerWorkflowNextActionV1::AwaitCandidateAdmissionMechanisms { authority, receipt, outcome } =>
            ManagerTurnV1::Report(
                ControllerWorkflowManagerStatusV1::AwaitingCandidateAdmissionMechanisms { authority, receipt, outcome },
            ),
        ControllerWorkflowNextActionV1::AwaitCandidateControlReceipts(authority) =>
            ManagerTurnV1::Report(ControllerWorkflowManagerStatusV1::AwaitingCandidateControlReceipts { authority }),
        ControllerWorkflowNextActionV1::Terminal { outcome, status } =>
            ManagerTurnV1::Report(ControllerWorkflowManagerStatusV1::Terminal { outcome, status }),
        other => ManagerTurnV1::Perform(other),
    }
}

/// What the Oracle exploration ledger asks for next, as its owner reports it.
#[derive(Debug, PartialEq, Eq)]
pub enum OracleExplorationNextV1 {
    /// Run one of the eligible strategies, in preference order, on a ledger item.
    RunStrategy { item: u64, eligible_strategies: Vec<u64> },
    AuthorizeExperiment { request: u64 },
    AwaitObservation,
    FreezePortfolio,
    BudgetExhausted,
}

/// The manager's step for an opened Oracle exploration.
#[derive(Debug, PartialEq, Eq)]
pub enum OracleExplorationStepV1 {
    /// Start the first eligible strategy on the item and authorize its run.
    StartStrategy { item: u64, strategy: u64 },
    /// Freeze the portfolio from the ledger under the strict admission policy.
    FreezePortfolio,
    /// Nothing to perform; report this status.
    Report(ControllerWorkflowManagerStatusV1),
}

/// The step owed for the ledger's next action: the first eligible strategy runs, an experiment
/// or observation is waited for, the portfolio is frozen, or the exhausted budget is reported.
pub open spec fn oracle_exploration_step(
    authority: FrozenOracleExplorationAuthorityV1,
    next: OracleExplorationNextV1,
) -> Option<OracleExplorationStepV1> {
    match next {
        OracleExplorationNextV1::RunStrategy { item, eligible_strategies } => if eligible_strategies@.len() == 0 {
            None
        } else {
            Some(OracleExplorationStepV1::StartStrategy { item, strategy: eligible_strategies@[0] })
        },
        OracleExplorationNextV1::AuthorizeExperiment { request } => Some(OracleExplorationStepV1::Report(
            ControllerWorkflowManagerStatusV1::AwaitingOracleExperiment { ledger: authority.ledger, request },
        )),
        OracleExplorationNextV1::AwaitObservation => Some(OracleExplorationStepV1::Report(
            ControllerWorkflowManagerStatusV1::OracleExplorationReady { authority },
        )),
        OracleExplorationNextV1::FreezePortfolio => Some(OracleExplorationStepV1::FreezePortfolio),
        OracleExplorationNextV1::BudgetExhausted => Some(OracleExplorationStepV1::Report(
            ControllerWorkflowManagerStatusV1::OracleExplorationBudgetExhausted { ledger: authority.ledger },
        )),
    }
}

/// Decides the manager's step for an opened Oracle exploration; an empty strategy set is a
/// workflow failure.
pub fn plan_oracle_exploration(authority: FrozenOracleExplorationAuthorityV1, next: OracleExplorationNextV1) -> (r: Result<
    OracleExplorationStepV1,
    ServerError,
>)
    ensures
        match oracle_exploration_step(authority, next) {
            Some(step) => r == Ok::<OracleExplorationStepV1, ServerError>(step),
            None => r matches Err(ServerError::MigrationWorkflow(m)) && m@ == "Oracle strategy set is empty"@,
        },
{
    match next {
        OracleExplorationNextV1::RunStrategy { item, eligible_strategies } => {
            if eligible_strategies.len() == 0 {
                Err(ServerError::MigrationWorkflow("Oracle strategy set is empty".to_owned()))
            } else {
                Ok(OracleExplorationStepV1::StartStrategy { item, strategy: eligible_strategies[0] })
            }
        },
        OracleExplorationNextV1::AuthorizeExperiment { request } => Ok(OracleExplorationStepV1::Report(
            ControllerWorkflowManagerStatusV1::AwaitingOracleExperiment { ledger: authority.ledger, request },
        )),
        OracleExplorationNextV1::AwaitObservation => Ok(OracleExplorationStepV1::Report(
            ControllerWorkflowManagerStatusV1::OracleExplorationReady { authority },
        )),
        OracleExplorationNextV1::FreezePortfolio => Ok(OracleExplorationStepV1::FreezePortfolio),
        OracleExplorationNextV1::BudgetExhausted => Ok(OracleExplorationStepV1::Report(
            ControllerWorkflowManagerStatusV1::OracleExplorationBudgetExhausted { ledger: authority.ledger },
        )),
    }
}

} // verus!
