use vstd::prelude::*;

use crate::controller::manager::ControllerWorkflowManagerStatusV1;
use crate::controller::state::ControllerWorkflowStateV1;
use crate::controller::types::{
    FrozenCandidateProposalAuthorityV1, FrozenOracleAdmissionAuthorityV1, FrozenOraclePortfolioAuthorityV1,
    FrozenOracleStrategyAuthorityV1, FrozenSirAuthorityV1, IntentContractBodyV1,
};
use crate::server::error::ServerError;
use crate::supervisor::intent_admission::IntentAdmissionProcessBlockedV1;
use crate::supervisor::proposal_host::ProposalHostProcessBlockedV1;

verus! {

/// An operation that a caller asks the Controller manager to perform on a task.
#[derive(Clone, Copy, Debug, PartialEq, Eq, Structural)]
pub enum ManagerEntryV1 {
    RecordUserIntentDecision,
    OpenOracleExploration,
    AuthorizeOracleAdmission,
    RecordOracleAdmissionEvidence,
    RecordOracleStrategySubmission,
    RecordOracleStrategyTerminal,
    ExecuteOracleStrategyEffect,
}

/// The durable authority an entry works under, taken from the recovered state.
#[derive(Clone, Copy, Debug, PartialEq, Eq, Structural)]
pub enum EntryAuthorityV1 {
    AwaitingDecision { requests: u64 },
    AdmittedIntent { authority: FrozenSirAuthorityV1, contract: u64, contract_body: IntentContractBodyV1 },
    Portfolio(FrozenOraclePortfolioAuthorityV1),
    Admission(FrozenOracleAdmissionAuthorityV1),
    Strategy(FrozenOracleStrategyAuthorityV1),
}

/// The authority an entry finds in a state; each entry works in exactly one kind of state.
pub open spec fn entry_authority(entry: ManagerEntryV1, state: ControllerWorkflowStateV1) -> Option<EntryAuthorityV1> {
    match (entry, state) {
        (
            ManagerEntryV1::RecordUserIntentDecision,
            ControllerWorkflowStateV1::AwaitingUserIntentDecision { requests, .. },
        ) => Some(EntryAuthorityV1::AwaitingDecision { requests }),
        (
            ManagerEntryV1::OpenOracleExploration,
            ControllerWorkflowStateV1::AdmittedIntent { authority, contract, contract_body, .. },
        ) => Some(EntryAuthorityV1::AdmittedIntent { authority, contract, contract_body }),
        (ManagerEntryV1::AuthorizeOracleAdmission, ControllerWorkflowStateV1::OraclePortfolioFrozen(a)) =>
            Some(EntryAuthorityV1::Portfolio(a)),
        (ManagerEntryV1::RecordOracleAdmissionEvidence, ControllerWorkflowStateV1::OracleAdmissionAuthorized(a)) =>
            Some(EntryAuthorityV1::Admission(a)),
        (ManagerEntryV1::RecordOracleStrategySubmission, ControllerWorkflowStateV1::OracleStrategyAuthorized(a))
        | (ManagerEntryV1::RecordOracleStrategyTerminal, ControllerWorkflowStateV1::OracleStrategyAuthorized(a))
        | (ManagerEntryV1::ExecuteOracleStrategyEffect, ControllerWorkflowStateV1::OracleStrategyAuthorized(a)) =>
            Some(EntryAuthorityV1::Strategy(a)),
        _ => None,
    }
}

/// The refusal an entry gives in any other state.
pub open spec fn entry_refusal(entry: ManagerEntryV1) -> Seq<char> {
    match entry {
        ManagerEntryV1::RecordUserIntentDecision => "Controller is not awaiting a user intent decision"@,
        ManagerEntryV1::OpenOracleExploration => "Controller has no admitted intent ready for Oracle Exploration"@,
        ManagerEntryV1::AuthorizeOracleAdmission => "Controller has no frozen Oracle portfolio ready for Admission"@,
        ManagerEntryV1::RecordOracleAdmissionEvidence => "Controller has no authorized Oracle Admission attempt"@,
        ManagerEntryV1::RecordOracleStrategySubmission
        | ManagerEntryV1::RecordOracleStrategyTerminal => "Controller has no authorized Oracle strategy run"@,
        ManagerEntryV1::ExecuteOracleStrategyEffect => "Controller has no authorized Oracle strategy effect"@,
    }
}

fn refuse_entry(entry: ManagerEntryV1) -> (r: ServerError)
    ensures
        r matches ServerError::MigrationWorkflow(m) && m@ == entry_refusal(entry),
{
    let message = match entry {
        ManagerEntryV1::RecordUserIntentDecision => "Controller is not awaiting a user intent decision",
        ManagerEntryV1::OpenOracleExploration => "Controller has no admitted intent ready for Oracle Exploration",
        ManagerEntryV1::AuthorizeOracleAdmission => "Controller has no frozen Oracle portfolio ready for Admission",
        ManagerEntryV1::RecordOracleAdmissionEvidence => "Controller has no authorized Oracle Admission attempt",
        ManagerEntryV1::RecordOracleStrategySubmission
        | ManagerEntryV1::RecordOracleStrategyTerminal => "Controller has no authorized Oracle strategy run",
        ManagerEntryV1::ExecuteOracleStrategyEffect => "Controller has no authorized Oracle strategy effect",
    };
    ServerError::MigrationWorkflow(message.to_owned())
}

/// Takes the authority an entry works under from the recovered state, or refuses the entry.
pub fn recovered_authority(entry: ManagerEntryV1, state: &ControllerWorkflowStateV1) -> (r: Result<
    EntryAuthorityV1,
    ServerError,
>)
    ensures
        match entry_authority(entry, *state) {
            Some(authority) => r == Ok::<EntryAuthorityV1, ServerError>(authority),
            None => (r matches Err(ServerError::MigrationWorkflow(m)) && m@ == entry_refusal(entry)),
        },
{
    match (entry, state) {
        (
            ManagerEntryV1::RecordUserIntentDecision,
            ControllerWorkflowStateV1::AwaitingUserIntentDecision { requests, .. },
        ) => Ok(EntryAuthorityV1::AwaitingDecision { requests: *requests }),
        (
            ManagerEntryV1::OpenOracleExploration,
            ControllerWorkflowStateV1::AdmittedIntent { authority, contract, contract_body, .. },
        ) => Ok(EntryAuthorityV1::AdmittedIntent { authority: *authority, contract: *contract, contract_body: *contract_body }),
        (ManagerEntryV1::AuthorizeOracleAdmission, ControllerWorkflowStateV1::OraclePortfolioFrozen(a)) =>
            Ok(EntryAuthorityV1::Portfolio(*a)),
        (ManagerEntryV1::RecordOracleAdmissionEvidence, ControllerWorkflowStateV1::OracleAdmissionAuthorized(a)) =>
            Ok(EntryAuthorityV1::Admission(*a)),
        (ManagerEntryV1::RecordOracleStrategySubmission, ControllerWorkflowStateV1::OracleStrategyAuthorized(a))
        | (ManagerEntryV1::RecordOracleStrategyTerminal, ControllerWorkflowStateV1::OracleStrategyAuthorized(a))
        | (ManagerEntryV1::ExecuteOracleStrategyEffect, ControllerWorkflowStateV1::OracleStrategyAuthorized(a)) =>
            Ok(EntryAuthorityV1::Strategy(*a)),
        _ => Err(refuse_entry(entry)),
    }
}

/// The role a Proposal Host episode plays for the Controller.
#[derive(Clone, Copy, Debug, PartialEq, Eq, Structural)]
pub enum HostEpisodeRoleV1 {
    Sir,
    CandidateStrategy,
    OracleStrategy,
}

/// The publication kind carried by a Proposal Host terminal.
#[derive(Clone, Copy, Debug, PartialEq, Eq, Structural)]
pub enum HostPublicationV1 {
    Sir,
    CandidateStrategy,
    OracleStrategy,
    /// A publication of any other role.
    Other,
}

/// How one Proposal Host run of an authorized episode ended.
#[derive(Clone, Copy, Debug, PartialEq, Eq, Structural)]
pub enum HostEpisodeOutcomeV1 {
    Blocked(ProposalHostProcessBlockedV1),
    AwaitingController { experiment: u64 },
    Terminal { publication: HostPublicationV1 },
}

/// The manager's step after a Host run.
#[derive(Clone, Copy, Debug, PartialEq, Eq, Structural)]
pub enum HostOutcomeStepV1 {
    /// Archive the terminal and record it into the workflow.
    RecordTerminal,
    /// Nothing to perform; report this status.
    Report(ControllerWorkflowManagerStatusV1),
}

/// The step owed after a Host run, or the refusal of a terminal that publishes for another role.
/// An Oracle strategy terminal is recorded as the run's completion, which checks its publication.
pub open spec fn host_outcome_step(
    role: HostEpisodeRoleV1,
    episode_id: u64,
    outcome: HostEpisodeOutcomeV1,
) -> Result<HostOutcomeStepV1, Seq<char>> {
    match outcome {
        HostEpisodeOutcomeV1::Blocked(reason) => Ok(
            HostOutcomeStepV1::Report(ControllerWorkflowManagerStatusV1::ProposalHostBlocked { episode_id, reason }),
        ),
        HostEpisodeOutcomeV1::AwaitingController { experiment } => Ok(
            HostOutcomeStepV1::Report(ControllerWorkflowManagerStatusV1::AwaitingControllerExperiment { experiment }),
        ),
        HostEpisodeOutcomeV1::Terminal { publication } => match role {
            HostEpisodeRoleV1::Sir => if publication == HostPublicationV1::Sir {
                Ok(HostOutcomeStepV1::RecordTerminal)
            } else {
                Err("SIR Host returned a non-SIR publication"@)
            },
            HostEpisodeRoleV1::CandidateStrategy => if publication == HostPublicationV1::CandidateStrategy {
                Ok(HostOutcomeStepV1::RecordTerminal)
            } else {
                Err("Candidate Host returned a non-Candidate publication"@)
            },
            HostEpisodeRoleV1::OracleStrategy => Ok(HostOutcomeStepV1::RecordTerminal),
        },
    }
}

/// Decides the step after a Host run of an authorized episode.
pub fn plan_host_outcome(role: HostEpisodeRoleV1, episode_id: u64, outcome: HostEpisodeOutcomeV1) -> (r: Result<
    HostOutcomeStepV1,
    ServerError,
>)
    ensures
        match host_outcome_step(role, episode_id, outcome) {
            Ok(step) => r == Ok::<HostOutcomeStepV1, ServerError>(step),
            Err(message) => (r matches Err(ServerError::MigrationWorkflow(m)) && m@ == message),
        },
{
    match outcome {
        HostEpisodeOutcomeV1::Blocked(reason) => Ok(
            HostOutcomeStepV1::Report(ControllerWorkflowManagerStatusV1::ProposalHostBlocked { episode_id, reason }),
        ),
        HostEpisodeOutcomeV1::AwaitingController { experiment } => Ok(
            HostOutcomeStepV1::Report(ControllerWorkflowManagerStatusV1::AwaitingControllerExperiment { experiment }),
        ),
        HostEpisodeOutcomeV1::Terminal { publication } => match role {
            HostEpisodeRoleV1::Sir => match publication {
                HostPublicationV1::Sir => Ok(HostOutcomeStepV1::RecordTerminal),
                _ => Err(ServerError::MigrationWorkflow("SIR Host returned a non-SIR publication".to_owned())),
            },
            HostEpisodeRoleV1::CandidateStrategy => match publication {
                HostPublicationV1::CandidateStrategy => Ok(HostOutcomeStepV1::RecordTerminal),
                _ => Err(ServerError::MigrationWorkflow("Candidate Host returned a non-Candidate publication".to_owned())),
            },
            HostEpisodeRoleV1::OracleStrategy => Ok(HostOutcomeStepV1::RecordTerminal),
        },
    }
}

/// Decides the step after an Intent Admission run: an admitted outcome is recorded, and a
/// blocked run reports the decision it blocks and why.
pub fn plan_intent_admission_outcome(decision: u64, run: Result<(), IntentAdmissionProcessBlockedV1>) -> (r:
    HostOutcomeStepV1)
    ensures
        r == (match run {
            Ok(()) => HostOutcomeStepV1::RecordTerminal,
            Err(reason) => HostOutcomeStepV1::Report(
                ControllerWorkflowManagerStatusV1::IntentAdmissionBlocked { decision, reason },
            ),
        }),
{
    match run {
        Ok(()) => HostOutcomeStepV1::RecordTerminal,
        Err(reason) => HostOutcomeStepV1::Report(ControllerWorkflowManagerStatusV1::IntentAdmissionBlocked { decision, reason }),
    }
}

/// Who executes an Oracle strategy run.
#[derive(Clone, Copy, Debug, PartialEq, Eq, Structural)]
pub enum OracleStrategyExecutorV1 {
    /// Archived implementation code; its submission is recorded directly.
    Deterministic { implementation: u64 },
    /// A Proposal Host episode under an archived invocation.
    AgentEpisode { invocation: u64 },
}

/// The manager's step for an authorized Oracle strategy run.
#[derive(Clone, Copy, Debug, PartialEq, Eq, Structural)]
pub enum OracleStrategyStartV1 {
    /// Nothing to run here; report this status.
    Report(ControllerWorkflowManagerStatusV1),
    /// Run the Proposal Host under this invocation.
    RunHost { invocation: u64 },
}

/// A deterministic run waits for its submission; an Agent run starts its Host episode.
pub fn plan_oracle_strategy_start(authority: FrozenOracleStrategyAuthorityV1, executor: OracleStrategyExecutorV1) -> (r:
    OracleStrategyStartV1)
    ensures
        r == (match executor {
            OracleStrategyExecutorV1::Deterministic { .. } => OracleStrategyStartV1::Report(
                ControllerWorkflowManagerStatusV1::OracleStrategyReady { authority },
            ),
            OracleStrategyExecutorV1::AgentEpisode { invocation } => OracleStrategyStartV1::RunHost { invocation },
        }),
{
    match executor {
        OracleStrategyExecutorV1::Deterministic { .. } => OracleStrategyStartV1::Report(
            ControllerWorkflowManagerStatusV1::OracleStrategyReady { authority },
        ),
        OracleStrategyExecutorV1::AgentEpisode { invocation } => OracleStrategyStartV1::RunHost { invocation },
    }
}

/// A submitted result completes only a deterministic run; it gives the implementation recorded
/// with the completion.
pub fn deterministic_implementation(executor: OracleStrategyExecutorV1) -> (r: Result<u64, ServerError>)
    ensures
        match executor {
            OracleStrategyExecutorV1::Deterministic { implementation } => r == Ok::<u64, ServerError>(implementation),
            OracleStrategyExecutorV1::AgentEpisode { .. } => (r matches Err(ServerError::MigrationWorkflow(m))
                && m@ == "Agent-backed Oracle strategy requires a Proposal Host terminal"@),
        },
{
    match executor {
        OracleStrategyExecutorV1::Deterministic { implementation } => Ok(implementation),
        OracleStrategyExecutorV1::AgentEpisode { .. } => Err(
            ServerError::MigrationWorkflow("Agent-backed Oracle strategy requires a Proposal Host terminal".to_owned()),
        ),
    }
}

/// The Host invocation of an Agent run whose request the manager materializes.
pub fn agent_invocation(executor: OracleStrategyExecutorV1) -> (r: Result<u64, ServerError>)
    ensures
        match executor {
            OracleStrategyExecutorV1::AgentEpisode { invocation } => r == Ok::<u64, ServerError>(invocation),
            OracleStrategyExecutorV1::Deterministic { .. } => (r matches Err(ServerError::MigrationWorkflow(m))
                && m@ == "Oracle strategy is not assigned to Proposal Host"@),
        },
{
    match executor {
        OracleStrategyExecutorV1::AgentEpisode { invocation } => Ok(invocation),
        OracleStrategyExecutorV1::Deterministic { .. } => Err(
            ServerError::MigrationWorkflow("Oracle strategy is not assigned to Proposal Host".to_owned()),
        ),
    }
}

/// Checks an Agent completion: the request and terminal must archive under the identities the
/// completion names, and the terminal must publish an Oracle strategy submission.
pub fn check_agent_completion(
    request_id: u64,
    archived_request: u64,
    terminal_id: u64,
    archived_terminal: u64,
    publication: HostPublicationV1,
) -> (r: Result<(), ServerError>)
    ensures
        (archived_request != request_id || archived_terminal != terminal_id) ==> (r matches Err(
            ServerError::MigrationWorkflow(m),
        ) && m@ == "Oracle Proposal Host completion identity changed"@),
        (archived_request == request_id && archived_terminal == terminal_id && publication
            != HostPublicationV1::OracleStrategy) ==> (r matches Err(ServerError::MigrationWorkflow(m))
            && m@ == "Oracle Proposal Host returned a non-Oracle publication"@),
        (archived_request == request_id && archived_terminal == terminal_id && publication
            == HostPublicationV1::OracleStrategy) ==> r is Ok,
{
    if archived_request != request_id || archived_terminal != terminal_id {
        return Err(ServerError::MigrationWorkflow("Oracle Proposal Host completion identity changed".to_owned()));
    }
    match publication {
        HostPublicationV1::OracleStrategy => Ok(()),
        _ => Err(ServerError::MigrationWorkflow("Oracle Proposal Host returned a non-Oracle publication".to_owned())),
    }
}

/// Checks a Host effect against the authorized Oracle run: the request must be an Oracle
/// strategy request for the authorized run, and the effect must belong to that request.
pub fn check_effect_request(
    oracle_strategy_role: bool,
    requested_run: u64,
    authorized_run: u64,
    effect_request: u64,
    request_identity: u64,
) -> (r: Result<(), ServerError>)
    ensures
        !oracle_strategy_role ==> (r matches Err(ServerError::MigrationWorkflow(m))
            && m@ == "Controller effect request is not an Oracle strategy"@),
        oracle_strategy_role && (requested_run != authorized_run || effect_request != request_identity) ==> (r matches Err(
            ServerError::MigrationWorkflow(m),
        ) && m@ == "Oracle Host effect changed its authorized request or run"@),
        oracle_strategy_role && requested_run == authorized_run && effect_request == request_identity ==> r is Ok,
{
    if !oracle_strategy_role {
        return Err(ServerError::MigrationWorkflow("Controller effect request is not an Oracle strategy".to_owned()));
    }
    if requested_run != authorized_run || effect_request != request_identity {
        return Err(ServerError::MigrationWorkflow("Oracle Host effect changed its authorized request or run".to_owned()));
    }
    Ok(())
}

/// Checks an observation cited by a submission: it must come from the run's own cell and run.
pub fn check_observation_binding(observation_item: u64, observation_run: u64, run_item: u64, run_identity: u64) -> (r:
    Result<(), ServerError>)
    ensures
        (observation_item == run_item && observation_run == run_identity) ==> r is Ok,
        !(observation_item == run_item && observation_run == run_identity) ==> (r matches Err(
            ServerError::MigrationWorkflow(m),
        ) && m@ == "Oracle submission cited an observation from another cell or run"@),
{
    if observation_item != run_item || observation_run != run_identity {
        Err(ServerError::MigrationWorkflow("Oracle submission cited an observation from another cell or run".to_owned()))
    } else {
        Ok(())
    }
}

/// An observation a submission cites: the cell and run it was observed in.
#[derive(Clone, Copy, Debug, PartialEq, Eq, Structural)]
pub struct CitedObservationV1 {
    pub item: u64,
    pub run: u64,
}

/// Checks every observation a submission cites, in order: each must come from the run's own
/// cell and run.
pub fn check_cited_observations(cited: &Vec<CitedObservationV1>, run_item: u64, run_identity: u64) -> (r: Result<
    (),
    ServerError,
>)
    ensures
        (forall|i: int| 0 <= i < cited@.len() ==> (#[trigger] cited@[i]).item == run_item && cited@[i].run == run_identity)
            ==> r is Ok,
        !(forall|i: int| 0 <= i < cited@.len() ==> (#[trigger] cited@[i]).item == run_item && cited@[i].run == run_identity)
            ==> (r matches Err(ServerError::MigrationWorkflow(m))
            && m@ == "Oracle submission cited an observation from another cell or run"@),
{
    let mut i: usize = 0;
    while i < cited.len()
        invariant
            i <= cited@.len(),
            forall|j: int| 0 <= j < i ==> (#[trigger] cited@[j]).item == run_item && cited@[j].run == run_identity,
        decreases cited.len() - i,
    {
        let observation = cited[i];
        match check_observation_binding(observation.item, observation.run, run_item, run_identity) {
            Ok(()) => {},
            Err(e) => {
                return Err(e);
            },
        }
        i = i + 1;
    }
    Ok(())
}

/// Checks the archived Oracle workspace against the policy and catalog archived with it.
pub fn check_exploration_material(
    workspace_policy: u64,
    policy: u64,
    workspace_catalog: u64,
    catalog: u64,
) -> (r: Result<(), ServerError>)
    ensures
        (workspace_policy == policy && workspace_catalog == catalog) ==> r is Ok,
        !(workspace_policy == policy && workspace_catalog == catalog) ==> (r matches Err(
            ServerError::MigrationWorkflow(m),
        ) && m@ == "Oracle workspace policy or strategy catalog identity changed"@),
{
    if workspace_policy != policy || workspace_catalog != catalog {
        Err(ServerError::MigrationWorkflow("Oracle workspace policy or strategy catalog identity changed".to_owned()))
    } else {
        Ok(())
    }
}

/// Checks that a Candidate build proposal stays under the frozen Candidate Oracle contract.
pub fn check_build_proposal_authority(proposal_contract: u64, authority: &FrozenCandidateProposalAuthorityV1) -> (r:
    Result<(), ServerError>)
    ensures
        proposal_contract == authority.candidate.contract ==> r is Ok,
        proposal_contract != authority.candidate.contract ==> (r matches Err(ServerError::MigrationWorkflow(m))
            && m@ == "Candidate build proposal is outside frozen Oracle authority"@),
{
    if proposal_contract != authority.candidate.contract {
        Err(ServerError::MigrationWorkflow("Candidate build proposal is outside frozen Oracle authority".to_owned()))
    } else {
        Ok(())
    }
}

/// Checks that a SIR terminal still publishes the proposal the workflow recorded; `published` is
/// the proposal identity of a SIR publication, and `None` for any other publication.
pub fn check_sir_terminal(published: Option<u64>, proposal: u64) -> (r: Result<(), ServerError>)
    ensures
        published == Some(proposal) ==> r is Ok,
        published != Some(proposal) ==> (r matches Err(ServerError::MigrationWorkflow(m))
            && m@ == "SIR terminal changed the durable proposal observation"@),
{
    match published {
        Some(id) => if id == proposal {
            Ok(())
        } else {
            Err(ServerError::MigrationWorkflow("SIR terminal changed the durable proposal observation".to_owned()))
        },
        None => Err(ServerError::MigrationWorkflow("SIR terminal changed the durable proposal observation".to_owned())),
    }
}

/// What deriving the Candidate Oracle contract from an Admission outcome gave.
#[derive(Debug, PartialEq, Eq)]
pub enum ContractDerivationV1 {
    Derived,
    /// The Admission outcome admitted no Oracle claim.
    NoAdmittedOracleClaims,
    Failed(String),
}

/// The manager's step after deriving the Candidate Oracle contract: a derived contract is frozen,
/// an outcome without admitted claims is reported, and any other failure is a workflow failure.
pub fn plan_candidate_contract(outcome: u64, derivation: ContractDerivationV1) -> (r: Result<
    HostOutcomeStepV1,
    ServerError,
>)
    ensures
        match derivation {
            ContractDerivationV1::Derived => r == Ok::<HostOutcomeStepV1, ServerError>(HostOutcomeStepV1::RecordTerminal),
            ContractDerivationV1::NoAdmittedOracleClaims => r == Ok::<HostOutcomeStepV1, ServerError>(
                HostOutcomeStepV1::Report(ControllerWorkflowManagerStatusV1::OracleAdmissionHasNoCandidateAuthority { outcome }),
            ),
            ContractDerivationV1::Failed(message) => r == Err::<HostOutcomeStepV1, ServerError>(
                ServerError::MigrationWorkflow(message),
            ),
        },
{
    match derivation {
        ContractDerivationV1::Derived => Ok(HostOutcomeStepV1::RecordTerminal),
        ContractDerivationV1::NoAdmittedOracleClaims => Ok(
            HostOutcomeStepV1::Report(ControllerWorkflowManagerStatusV1::OracleAdmissionHasNoCandidateAuthority { outcome }),
        ),
        ContractDerivationV1::Failed(message) => Err(ServerError::MigrationWorkflow(message)),
    }
}

/// How the Oracle ledger resolves one obligation.
#[derive(Debug, PartialEq, Eq)]
pub enum OracleObligationResolutionV1 {
    /// A strategy run is active and has projected these observations so far.
    Running { run: u64, observations: Vec<u64> },
    /// The obligation contributed these portfolio elements.
    Contributed { elements: Vec<u64> },
    /// Any other resolution.
    Other,
}

/// One entry of the Oracle exploration ledger: a work item of a claim and its resolution.
#[derive(Debug, PartialEq, Eq)]
pub struct OracleLedgerEntryV1 {
    pub item: u64,
    pub claim: u64,
    pub resolution: OracleObligationResolutionV1,
}

/// Whether `i` is the first ledger position of a work item.
pub open spec fn first_entry(entries: Seq<OracleLedgerEntryV1>, item: u64, i: int) -> bool {
    &&& 0 <= i < entries.len()
    &&& entries[i].item == item
    &&& forall|j: int| 0 <= j < i ==> entries[j].item != item
}

/// Whether a resolution is the active run `run` with exactly these observations.
pub open spec fn active_run(resolution: OracleObligationResolutionV1, run: u64, observations: Seq<u64>) -> bool {
    resolution matches OracleObligationResolutionV1::Running { run: active, observations: seen } && active == run
        && seen@ == observations
}

/// Whether a resolution is the active run `run`.
pub open spec fn runs(resolution: OracleObligationResolutionV1, run: u64) -> bool {
    resolution matches OracleObligationResolutionV1::Running { run: active, .. } && active == run
}

/// The observations already projected for an Oracle run: the first ledger entry of the run's
/// work item must hold that run as active.
pub fn active_run_observations(entries: &Vec<OracleLedgerEntryV1>, item: u64, run: u64) -> (r: Result<
    &Vec<u64>,
    ServerError,
>)
    ensures
        match r {
            Ok(observations) => exists|i: int|
                #[trigger] first_entry(entries@, item, i) && active_run(entries@[i].resolution, run, observations@),
            Err(e) => (forall|i: int| #[trigger] first_entry(entries@, item, i) ==> !runs(entries@[i].resolution, run))
                && (e matches ServerError::MigrationWorkflow(m) && m@ == "Oracle effect has no active run ledger"@),
        },
{
    let mut k: usize = 0;
    while k < entries.len()
        invariant
            k <= entries.len(),
            forall|j: int| 0 <= j < k ==> entries@[j].item != item,
        decreases entries.len() - k,
    {
        if entries[k].item == item {
            assert(first_entry(entries@, item, k as int));
            assert forall|i: int| #[trigger] first_entry(entries@, item, i) implies i == k by {
                if i < k {
                } else if i > k {
                    assert(entries@[k as int].item == item);
                }
            }
            match &entries[k].resolution {
                OracleObligationResolutionV1::Running { run: active, observations } => {
                    if *active == run {
                        return Ok(observations);
                    }
                },
                _ => {},
            }
            return Err(ServerError::MigrationWorkflow("Oracle effect has no active run ledger".to_owned()));
        }
        k = k + 1;
    }
    Err(ServerError::MigrationWorkflow("Oracle effect has no active run ledger".to_owned()))
}

/// What a yielded effect's observation batch means for the ledger.
#[derive(Clone, Copy, Debug, PartialEq, Eq, Structural)]
pub enum BatchStepV1 {
    /// Every observation is already projected: the effect was already recorded.
    AlreadyProjected,
    /// No observation is projected yet: record the batch.
    Record,
}

/// A batch already wholly in the ledger was projected before; one wholly outside it is new; one
/// partly inside has no step.
pub open spec fn batch_step(batch: Seq<u64>, existing: Seq<u64>) -> Option<BatchStepV1> {
    if forall|k: int| 0 <= k < batch.len() ==> existing.contains(#[trigger] batch[k]) {
        Some(BatchStepV1::AlreadyProjected)
    } else if exists|k: int| 0 <= k < batch.len() && existing.contains(#[trigger] batch[k]) {
        None
    } else {
        Some(BatchStepV1::Record)
    }
}

fn contains_id(v: &Vec<u64>, x: u64) -> (r: bool)
    ensures
        r == v@.contains(x),
{
    let mut i: usize = 0;
    while i < v.len()
        invariant
            i <= v.len(),
            forall|j: int| 0 <= j < i ==> v@[j] != x,
        decreases v.len() - i,
    {
        if v[i] == x {
            assert(v@[i as int] == x);
            return true;
        }
        i = i + 1;
    }
    false
}

/// Decides what an effect's observation batch does to the run's ledger; a partly projected
/// batch is a workflow failure.
pub fn observation_batch_step(batch: &Vec<u64>, existing: &Vec<u64>) -> (r: Result<BatchStepV1, ServerError>)
    ensures
        match batch_step(batch@, existing@) {
            Some(step) => r == Ok::<BatchStepV1, ServerError>(step),
            None => (r matches Err(ServerError::MigrationWorkflow(m))
                && m@ == "Oracle effect observation batch is only partially projected"@),
        },
{
    let mut all_in = true;
    let mut any_in = false;
    let mut k: usize = 0;
    while k < batch.len()
        invariant
            k <= batch.len(),
            all_in == (forall|j: int| 0 <= j < k ==> existing@.contains(#[trigger] batch@[j])),
            any_in == (exists|j: int| 0 <= j < k && existing@.contains(#[trigger] batch@[j])),
        decreases batch.len() - k,
    {
        let seen = contains_id(existing, batch[k]);
        proof {
            if !seen {
                assert(!existing@.contains(batch@[k as int]));
            }
            if seen {
                assert(existing@.contains(batch@[k as int]));
            }
        }
        all_in = all_in && seen;
        any_in = any_in || seen;
        k = k + 1;
    }
    if all_in {
        Ok(BatchStepV1::AlreadyProjected)
    } else if any_in {
        Err(ServerError::MigrationWorkflow("Oracle effect observation batch is only partially projected".to_owned()))
    } else {
        Ok(BatchStepV1::Record)
    }
}

/// Whether `j` is the first position of a claim identity.
pub open spec fn first_claim(claims: Seq<u64>, claim: u64, j: int) -> bool {
    &&& 0 <= j < claims.len()
    &&& claims[j] == claim
    &&& forall|k: int| 0 <= k < j ==> claims[k] != claim
}

/// Finds the work item of an Agent strategy run in the ledger and its claim among the
/// exploration's claims: the positions of the first entry of the item and of its claim.
pub fn strategy_work_item(entries: &Vec<OracleLedgerEntryV1>, run_item: u64, claims: &Vec<u64>) -> (r: Result<
    (usize, usize),
    ServerError,
>)
    ensures
        match r {
            Ok((i, j)) => first_entry(entries@, run_item, i as int) && first_claim(
                claims@,
                entries@[i as int].claim,
                j as int,
            ),
            Err(e) => (e matches ServerError::MigrationWorkflow(m) && ((!exists|i: int| #[trigger] first_entry(
                entries@,
                run_item,
                i,
            )) && m@ == "Oracle strategy work item is absent"@ || (exists|i: int|
                #[trigger] first_entry(entries@, run_item, i) && !claims@.contains(entries@[i].claim))
                && m@ == "Oracle strategy claim is absent"@)),
        },
{
    let mut i: usize = 0;
    while i < entries.len()
        invariant
            i <= entries.len(),
            forall|j: int| 0 <= j < i ==> entries@[j].item != run_item,
        decreases entries.len() - i,
    {
        if entries[i].item == run_item {
            assert(first_entry(entries@, run_item, i as int));
            let claim = entries[i].claim;
            let mut j: usize = 0;
            while j < claims.len()
                invariant
                    j <= claims.len(),
                    i < entries.len(),
                    claim == entries@[i as int].claim,
                    first_entry(entries@, run_item, i as int),
                    forall|k: int| 0 <= k < j ==> claims@[k] != claim,
                decreases claims.len() - j,
            {
                if claims[j] == claim {
                    return Ok((i, j));
                }
                j = j + 1;
            }
            assert(!claims@.contains(claim));
            return Err(ServerError::MigrationWorkflow("Oracle strategy claim is absent".to_owned()));
        }
        i = i + 1;
    }
    assert forall|x: int| !#[trigger] first_entry(entries@, run_item, x) by {}
    Err(ServerError::MigrationWorkflow("Oracle strategy work item is absent".to_owned()))
}

/// An effect is projected at most once: once a batch's observations are in the run's ledger,
/// the same batch is recognized as already projected and never recorded again.
pub proof fn lemma_projected_batch_replays(batch: Seq<u64>, existing: Seq<u64>)
    ensures
        batch_step(batch, existing + batch) == Some(BatchStepV1::AlreadyProjected),
{
    assert forall|k: int| 0 <= k < batch.len() implies (existing + batch).contains(#[trigger] batch[k]) by {
        assert((existing + batch)[existing.len() + k] == batch[k]);
    }
}

/// The membership test that keeps a claim in a Candidate request.
pub open spec fn admitted_in(admitted: Seq<u64>) -> spec_fn(u64) -> bool {
    |claim: u64| admitted.contains(claim)
}

/// The exploration claims a Candidate request may carry: exactly those the Candidate Oracle
/// contract admitted, in the exploration's order. Rejected and partial claims have no path in.
pub fn admitted_public_claims(claims: &Vec<u64>, admitted: &Vec<u64>) -> (r: Vec<u64>)
    ensures
        r@ == claims@.filter(admitted_in(admitted@)),
{
    let mut kept: Vec<u64> = Vec::new();
    let mut i: usize = 0;
    while i < claims.len()
        invariant
            i <= claims.len(),
            kept@ == claims@.take(i as int).filter(admitted_in(admitted@)),
        decreases claims.len() - i,
    {
        let claim = claims[i];
        let keep = contains_id(admitted, claim);
        proof {
            let next = claims@.take(i as int + 1);
            assert(next.drop_last() =~= claims@.take(i as int));
            assert(next.last() == claim);
            reveal_with_fuel(Seq::filter, 1);
        }
        if keep {
            kept.push(claim);
        }
        i = i + 1;
    }
    assert(claims@.take(claims.len() as int) =~= claims@);
    kept
}

/// The portfolio elements contributed by a list of admitted ledger resolutions, in order, or
/// `None` when one of them is not a positive contribution.
pub open spec fn contributed_elements(resolutions: Seq<OracleObligationResolutionV1>) -> Option<Seq<u64>>
    decreases resolutions.len(),
{
    if resolutions.len() == 0 {
        Some(Seq::empty())
    } else {
        match contributed_elements(resolutions.drop_last()) {
            None => None,
            Some(prefix) => match resolutions.last() {
                OracleObligationResolutionV1::Contributed { elements } => Some(prefix + elements@),
                _ => None,
            },
        }
    }
}

/// Collects the element identities a Candidate request loads from the admitted claims' ledger
/// entries, listed claim by claim; every admitted entry must be a positive contribution.
pub fn admitted_elements(resolutions: &Vec<OracleObligationResolutionV1>) -> (r: Result<Vec<u64>, ServerError>)
    ensures
        match contributed_elements(resolutions@) {
            Some(elements) => (r matches Ok(v) && v@ == elements),
            None => (r matches Err(ServerError::MigrationWorkflow(m))
                && m@ == "admitted Candidate Oracle entry is not a positive contribution"@),
        },
{
    let mut out: Vec<u64> = Vec::new();
    let mut i: usize = 0;
    while i < resolutions.len()
        invariant
            i <= resolutions.len(),
            contributed_elements(resolutions@.take(i as int)) == Some(out@),
        decreases resolutions.len() - i,
    {
        proof {
            let next = resolutions@.take(i as int + 1);
            assert(next.drop_last() =~= resolutions@.take(i as int));
            assert(next.last() == resolutions@[i as int]);
        }
        match &resolutions[i] {
            OracleObligationResolutionV1::Contributed { elements } => {
                let ghost prefix = out@;
                let mut j: usize = 0;
                while j < elements.len()
                    invariant
                        j <= elements.len(),
                        out@ == prefix + elements@.take(j as int),
                    decreases elements.len() - j,
                {
                    out.push(elements[j]);
                    proof {
                        assert(elements@.take(j as int + 1) =~= elements@.take(j as int).push(elements@[j as int]));
                    }
                    j = j + 1;
                }
                assert(elements@.take(elements.len() as int) =~= elements@);
            },
            _ => {
                proof {
                    assert(contributed_elements(resolutions@.take(i as int + 1)) is None);
                    lemma_contribution_failure_persists(resolutions@, i as int + 1);
                }
                return Err(
                    ServerError::MigrationWorkflow("admitted Candidate Oracle entry is not a positive contribution".to_owned()),
                );
            },
        }
        i = i + 1;
    }
    assert(resolutions@.take(resolutions.len() as int) =~= resolutions@);
    Ok(out)
}

proof fn lemma_contribution_failure_persists(s: Seq<OracleObligationResolutionV1>, n: int)
    requires
        0 <= n <= s.len(),
        contributed_elements(s.take(n)) is None,
    ensures
        contributed_elements(s) is None,
    decreases s.len() - n,
{
    if n < s.len() {
        let next = s.take(n + 1);
        assert(next.drop_last() =~= s.take(n));
        lemma_contribution_failure_persists(s, n + 1);
    } else {
        assert(s.take(n) =~= s);
    }
}

} // verus!
