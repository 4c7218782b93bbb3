use vstd::prelude::*;
use vstd::string::StringExecFns;

use crate::controller::types::{
    FrozenOracleExplorationAuthorityV1, FrozenSirAuthorityV1, IntentAdmissionBlockReasonV1,
    IntentContractBodyV1, OracleControlReceiptV1, ReceiptList,
};

verus! {

/// Result of binding an Oracle strategy completion to the run it claims to complete.
#[derive(Clone, Copy, Debug, PartialEq, Eq, Structural)]
pub enum CompletionBindingV1 {
    /// The completion's submission belongs to the exact run and item.
    Bound,
    /// The completion names another executor, run, role, or item.
    Mismatch,
    /// The completion's request or terminal could not be validated at all.
    Invalid,
}

/// What a Candidate proposal-step request names, compared against the frozen Candidate authority.
#[derive(Clone, Copy, Debug, PartialEq, Eq, Structural)]
pub struct CandidateRequestFactsV1 {
    /// Whether the request has the Candidate-strategy role.
    pub candidate_role: bool,
    pub workspace_task: u64,
    pub workspace: u64,
    pub contract: u64,
    /// Whether the request's Oracle materials validate against its contract.
    pub materials_bound: bool,
}

/// Body of the fact that freezes the task's SIR authority.
#[derive(Clone, Copy, Debug, PartialEq, Eq, Structural)]
pub struct WorkflowFrozenPayload {
    pub authority: FrozenSirAuthorityV1,
}

/// Body of the fact that authorizes the SIR proposal-step episode for the frozen request.
#[derive(Clone, Copy, Debug, PartialEq, Eq, Structural)]
pub struct SirEpisodeAuthorizedPayload {
    pub request: u64,
}

/// Body of the fact that records the validated SIR terminal and its proposal.
#[derive(Clone, Copy, Debug, PartialEq, Eq, Structural)]
pub struct SirProposalRecordedPayload {
    pub terminal: u64,
    pub proposal: u64,
}

/// Body of the fact that records the batch of user intent decision requests.
#[derive(Clone, Copy, Debug, PartialEq, Eq, Structural)]
pub struct IntentDecisionRequestsRecordedPayload {
    pub requests: u64,
}

/// Body of the fact that records one user intent decision under its authority grant.
#[derive(Clone, Copy, Debug, PartialEq, Eq, Structural)]
pub struct UserIntentDecisionRecordedPayload {
    pub request: u64,
    pub authority_grant: u64,
    pub decision: u64,
}

/// Body of the fact that authorizes one Intent Admission operation.
#[derive(Clone, Copy, Debug, PartialEq, Eq, Structural)]
pub struct IntentAdmissionAuthorizedPayload {
    pub decision: u64,
    pub executable: u64,
    pub restricted_store: u64,
}

/// Body of the fact that records why an authorized Intent Admission operation is blocked.
#[derive(Clone, Copy, Debug, PartialEq, Eq, Structural)]
pub struct IntentAdmissionBlockedPayload {
    pub decision: u64,
    pub executable: u64,
    pub restricted_store: u64,
    pub reason: IntentAdmissionBlockReasonV1,
}

/// Body of the fact that records the admitted intent and its contract.
#[derive(Clone, Copy, Debug, PartialEq, Eq, Structural)]
pub struct AdmittedIntentRecordedPayload {
    pub outcome: u64,
    pub contract: u64,
    pub contract_body: IntentContractBodyV1,
}

/// Body of the fact that opens the Oracle exploration workspace and ledger.
#[derive(Clone, Copy, Debug, PartialEq, Eq, Structural)]
pub struct OracleExplorationOpenedPayload {
    pub authority: FrozenOracleExplorationAuthorityV1,
}

/// Start of one Oracle strategy run; `expected_started_ledger` is the ledger that starting the
/// run from `previous_ledger` yields, or `None` when the ledger refuses the start.
#[derive(Clone, Copy, Debug, PartialEq, Eq, Structural)]
pub struct OracleStrategyAuthorizedPayload {
    pub workspace: u64,
    pub catalog: u64,
    pub previous_ledger: u64,
    pub previous_ledger_revision: u64,
    pub run: u64,
    pub run_workspace: u64,
    pub started_ledger: u64,
    pub started_ledger_revision: u64,
    pub expected_started_ledger: Option<u64>,
}

/// Body of the fact that records the observations of an authorized Oracle strategy run.
#[derive(Clone, Copy, Debug, PartialEq, Eq, Structural)]
pub struct OracleStrategyObservationsRecordedPayload {
    pub previous_ledger: u64,
    pub previous_ledger_revision: u64,
    pub run: u64,
    pub next_ledger: u64,
    pub next_ledger_revision: u64,
    pub expected_next_ledger: Option<u64>,
}

/// Body of the fact that records the completion of an authorized Oracle strategy run.
#[derive(Clone, Copy, Debug, PartialEq, Eq, Structural)]
pub struct OracleStrategySubmissionRecordedPayload {
    pub workspace: u64,
    pub previous_ledger: u64,
    pub previous_ledger_revision: u64,
    pub run: u64,
    pub completion: CompletionBindingV1,
    pub next_ledger: u64,
    pub next_ledger_revision: u64,
    pub expected_next_ledger: Option<u64>,
}

/// Body of the fact that freezes the Oracle portfolio proposal and its admission policy.
#[derive(Clone, Copy, Debug, PartialEq, Eq, Structural)]
pub struct OraclePortfolioFrozenPayload {
    pub ledger: u64,
    pub ledger_revision: u64,
    pub proposal: u64,
    pub expected_proposal: Option<u64>,
    pub policy: u64,
    pub policy_is_strict: bool,
}

/// Body of the fact that authorizes Oracle admission with its qualified mechanisms.
#[derive(Clone, Copy, Debug, PartialEq, Eq, Structural)]
pub struct OracleAdmissionAuthorizedPayload {
    pub proposal: u64,
    pub policy: u64,
    pub mechanisms: u64,
    pub attempt: u64,
    pub expected_attempt: Option<u64>,
}

/// Body of the fact that authorizes one Oracle admission control run.
#[derive(Clone, Copy, Debug, PartialEq, Eq, Structural)]
pub struct OracleControlAuthorizedPayload {
    pub run: u64,
    pub dispatch: u64,
    pub expected_run: Option<u64>,
    pub dispatch_bound: bool,
    pub dispatch_run: u64,
    pub evidence_admissible: bool,
    pub obligation_item: u64,
    pub obligation_control: u64,
}

/// Body of the fact that records the receipt of an authorized Oracle control run.
#[derive(Clone, Copy, Debug, PartialEq, Eq, Structural)]
pub struct OracleControlObservedPayload {
    pub run: u64,
    pub dispatch: u64,
    pub dispatch_bound: bool,
    pub observation_bound: bool,
    pub receipt: OracleControlReceiptV1,
    pub expected_receipt: Option<OracleControlReceiptV1>,
    pub run_attempt: u64,
}

/// Body of the fact that records the Oracle admission evidence and outcome.
#[derive(Debug, PartialEq, Eq)]
pub struct OracleAdmissionRecordedPayload {
    pub proposal: u64,
    pub policy: u64,
    pub mechanisms: u64,
    pub attempt: u64,
    pub evidence: u64,
    pub evidence_receipts: ReceiptList,
    pub outcome: u64,
    pub expected_outcome: Option<u64>,
}

/// Body of the fact that freezes the Oracle contract Candidates are judged against.
#[derive(Clone, Copy, Debug, PartialEq, Eq, Structural)]
pub struct CandidateOracleContractFrozenPayload {
    pub proposal: u64,
    pub oracle_workspace: u64,
    pub outcome: u64,
    pub contract: u64,
    pub expected_contract: Option<u64>,
    pub workspace: u64,
    pub expected_workspace: Option<u64>,
}

/// Body of the fact that freezes the Candidate proposal-step request.
#[derive(Clone, Copy, Debug, PartialEq, Eq, Structural)]
pub struct CandidateProposalRequestFrozenPayload {
    pub request_id: u64,
    pub request_identity: u64,
    pub request_facts: CandidateRequestFactsV1,
    pub episode_id: u64,
}

/// Body of the fact that authorizes the Candidate proposal-step episode.
#[derive(Clone, Copy, Debug, PartialEq, Eq, Structural)]
pub struct CandidateProposalEpisodeAuthorizedPayload {
    pub request: u64,
}

/// Body of the fact that records the Candidate terminal and its proposal.
#[derive(Clone, Copy, Debug, PartialEq, Eq, Structural)]
pub struct CandidateProposalRecordedPayload {
    pub request_id: u64,
    pub request_identity: u64,
    pub terminal_id: u64,
    pub terminal_identity: u64,
    pub terminal_bound: bool,
    pub terminal_episode: u64,
    pub request_facts: CandidateRequestFactsV1,
    /// The proposal published by the terminal when it has the Candidate-strategy role.
    pub published_proposal: Option<u64>,
}

/// Body of the fact that freezes the Candidate native build request.
#[derive(Clone, Copy, Debug, PartialEq, Eq, Structural)]
pub struct CandidateBuildFrozenPayload {
    pub plan: u64,
    pub request: u64,
    pub request_proposal: u64,
    pub request_plan: u64,
}

/// Body of the fact that authorizes the frozen Candidate build.
#[derive(Clone, Copy, Debug, PartialEq, Eq, Structural)]
pub struct CandidateBuildAuthorizedPayload {
    pub request: u64,
}

/// Body of the fact that records the execution receipt of the Candidate build.
#[derive(Clone, Copy, Debug, PartialEq, Eq, Structural)]
pub struct CandidateBuildObservedPayload {
    pub request_identity: u64,
    pub receipt_id: u64,
    pub receipt_identity: u64,
    pub receipt_job: u64,
    pub request_job: u64,
    pub receipt_contract: u64,
    pub request_contract: u64,
    pub outcome: u64,
}

/// Body of the fact that authorizes Candidate admission with its mechanisms.
#[derive(Clone, Copy, Debug, PartialEq, Eq, Structural)]
pub struct CandidateAdmissionAuthorizedPayload {
    pub contract: u64,
    pub proposal: u64,
    pub mechanisms: u64,
    pub attempt: u64,
    pub attempt_mechanisms: u64,
    pub expected_attempt: Option<u64>,
}

/// Body of the fact that records the Candidate admission evidence and terminal outcome.
#[derive(Clone, Copy, Debug, PartialEq, Eq, Structural)]
pub struct CandidateAdmissionRecordedPayload {
    pub contract: u64,
    pub proposal: u64,
    pub mechanisms: u64,
    pub attempt: u64,
    pub evidence: u64,
    pub outcome_evidence: u64,
    pub outcome_proposal: u64,
    pub outcome: u64,
    pub expected_outcome: Option<u64>,
    /// Number of outcome claims whose status is rejected.
    pub rejected_claims: u64,
    /// Number of outcome claims whose status is partial.
    pub partial_claims: u64,
}

/// One current-V1 Controller workflow fact as it is recorded in the task stream.
#[derive(Debug, PartialEq, Eq)]
pub enum ControllerWorkflowEventV1 {
    WorkflowFrozen(WorkflowFrozenPayload),
    WorkflowCancelled,
    SirEpisodeAuthorized(SirEpisodeAuthorizedPayload),
    SirProposalRecorded(SirProposalRecordedPayload),
    IntentDecisionRequestsRecorded(IntentDecisionRequestsRecordedPayload),
    UserIntentDecisionRecorded(UserIntentDecisionRecordedPayload),
    IntentAdmissionAuthorized(IntentAdmissionAuthorizedPayload),
    IntentAdmissionBlocked(IntentAdmissionBlockedPayload),
    AdmittedIntentRecorded(AdmittedIntentRecordedPayload),
    OracleExplorationOpened(OracleExplorationOpenedPayload),
    OracleStrategyAuthorized(OracleStrategyAuthorizedPayload),
    OracleStrategyObservationsRecorded(OracleStrategyObservationsRecordedPayload),
    OracleStrategySubmissionRecorded(OracleStrategySubmissionRecordedPayload),
    OraclePortfolioFrozen(OraclePortfolioFrozenPayload),
    OracleAdmissionAuthorized(OracleAdmissionAuthorizedPayload),
    OracleControlAuthorized(OracleControlAuthorizedPayload),
    OracleControlObserved(OracleControlObservedPayload),
    OracleAdmissionRecorded(OracleAdmissionRecordedPayload),
    CandidateOracleContractFrozen(CandidateOracleContractFrozenPayload),
    CandidateProposalRequestFrozen(CandidateProposalRequestFrozenPayload),
    CandidateProposalEpisodeAuthorized(CandidateProposalEpisodeAuthorizedPayload),
    CandidateProposalRecorded(CandidateProposalRecordedPayload),
    CandidateBuildFrozen(CandidateBuildFrozenPayload),
    CandidateBuildAuthorized(CandidateBuildAuthorizedPayload),
    CandidateBuildObserved(CandidateBuildObservedPayload),
    CandidateAdmissionAuthorized(CandidateAdmissionAuthorizedPayload),
    CandidateAdmissionRecorded(CandidateAdmissionRecordedPayload),
}

impl ControllerWorkflowEventV1 {
    /// Exact comparison of two recorded facts.
    pub fn same(&self, other: &ControllerWorkflowEventV1) -> (r: bool)
        ensures
            r == (*self == *other),
    {
        match (self, other) {
            (ControllerWorkflowEventV1::WorkflowFrozen(a), ControllerWorkflowEventV1::WorkflowFrozen(b)) => *a == *b,
            (ControllerWorkflowEventV1::WorkflowCancelled, ControllerWorkflowEventV1::WorkflowCancelled) => true,
            (ControllerWorkflowEventV1::SirEpisodeAuthorized(a), ControllerWorkflowEventV1::SirEpisodeAuthorized(b)) => *a == *b,
            (ControllerWorkflowEventV1::SirProposalRecorded(a), ControllerWorkflowEventV1::SirProposalRecorded(b)) => *a == *b,
            (
                ControllerWorkflowEventV1::IntentDecisionRequestsRecorded(a),
                ControllerWorkflowEventV1::IntentDecisionRequestsRecorded(b),
            ) => *a == *b,
            (
                ControllerWorkflowEventV1::UserIntentDecisionRecorded(a),
                ControllerWorkflowEventV1::UserIntentDecisionRecorded(b),
            ) => *a == *b,
            (
                ControllerWorkflowEventV1::IntentAdmissionAuthorized(a),
                ControllerWorkflowEventV1::IntentAdmissionAuthorized(b),
            ) => *a == *b,
            (ControllerWorkflowEventV1::IntentAdmissionBlocked(a), ControllerWorkflowEventV1::IntentAdmissionBlocked(b)) => *a == *b,
            (ControllerWorkflowEventV1::AdmittedIntentRecorded(a), ControllerWorkflowEventV1::AdmittedIntentRecorded(b)) => *a == *b,
            (ControllerWorkflowEventV1::OracleExplorationOpened(a), ControllerWorkflowEventV1::OracleExplorationOpened(b)) => *a == *b,
            (ControllerWorkflowEventV1::OracleStrategyAuthorized(a), ControllerWorkflowEventV1::OracleStrategyAuthorized(b)) => *a == *b,
            (
                ControllerWorkflowEventV1::OracleStrategyObservationsRecorded(a),
                ControllerWorkflowEventV1::OracleStrategyObservationsRecorded(b),
            ) => *a == *b,
            (
                ControllerWorkflowEventV1::OracleStrategySubmissionRecorded(a),
                ControllerWorkflowEventV1::OracleStrategySubmissionRecorded(b),
            ) => *a == *b,
            (ControllerWorkflowEventV1::OraclePortfolioFrozen(a), ControllerWorkflowEventV1::OraclePortfolioFrozen(b)) => *a == *b,
            (
                ControllerWorkflowEventV1::OracleAdmissionAuthorized(a),
                ControllerWorkflowEventV1::OracleAdmissionAuthorized(b),
            ) => *a == *b,
            (ControllerWorkflowEventV1::OracleControlAuthorized(a), ControllerWorkflowEventV1::OracleControlAuthorized(b)) => *a == *b,
            (ControllerWorkflowEventV1::OracleControlObserved(a), ControllerWorkflowEventV1::OracleControlObserved(b)) => *a == *b,
            (ControllerWorkflowEventV1::OracleAdmissionRecorded(a), ControllerWorkflowEventV1::OracleAdmissionRecorded(b)) => {
                a.proposal == b.proposal && a.policy == b.policy && a.mechanisms == b.mechanisms
                    && a.attempt == b.attempt && a.evidence == b.evidence && a.outcome == b.outcome
                    && a.expected_outcome == b.expected_outcome
                    && a.evidence_receipts.same(&b.evidence_receipts)
            },
            (
                ControllerWorkflowEventV1::CandidateOracleContractFrozen(a),
                ControllerWorkflowEventV1::CandidateOracleContractFrozen(b),
            ) => *a == *b,
            (
                ControllerWorkflowEventV1::CandidateProposalRequestFrozen(a),
                ControllerWorkflowEventV1::CandidateProposalRequestFrozen(b),
            ) => *a == *b,
            (
                ControllerWorkflowEventV1::CandidateProposalEpisodeAuthorized(a),
                ControllerWorkflowEventV1::CandidateProposalEpisodeAuthorized(b),
            ) => *a == *b,
            (
                ControllerWorkflowEventV1::CandidateProposalRecorded(a),
                ControllerWorkflowEventV1::CandidateProposalRecorded(b),
            ) => *a == *b,
            (ControllerWorkflowEventV1::CandidateBuildFrozen(a), ControllerWorkflowEventV1::CandidateBuildFrozen(b)) => *a == *b,
            (ControllerWorkflowEventV1::CandidateBuildAuthorized(a), ControllerWorkflowEventV1::CandidateBuildAuthorized(b)) => *a == *b,
            (ControllerWorkflowEventV1::CandidateBuildObserved(a), ControllerWorkflowEventV1::CandidateBuildObserved(b)) => *a == *b,
            (
                ControllerWorkflowEventV1::CandidateAdmissionAuthorized(a),
                ControllerWorkflowEventV1::CandidateAdmissionAuthorized(b),
            ) => *a == *b,
            (
                ControllerWorkflowEventV1::CandidateAdmissionRecorded(a),
                ControllerWorkflowEventV1::CandidateAdmissionRecorded(b),
            ) => *a == *b,
            _ => false,
        }
    }
}

/// Why a recorded Controller history is illegal.
#[derive(Clone, Copy, Debug, PartialEq, Eq, Structural)]
pub enum HistoryFaultV1 {
    IllegalTransition,
    VersionOrParentChanged,
    TaskAuthorityChanged,
    SirRequestChanged,
    IntentAdmissionDecisionChanged,
    IntentAdmissionReauthorizationChanged,
    IntentAdmissionBlockedAuthorityChanged,
    ContractBodyChanged,
    OracleExplorationChanged,
    OracleStrategyStartChanged,
    OracleStrategyObservationsChanged,
    OracleStrategySubmissionChanged,
    PortfolioOrPolicyChanged,
    OracleAdmissionStartChanged,
    OracleControlStartChanged,
    OracleControlObservationChanged,
    OracleControlAttemptChanged,
    OracleAdmissionOutcomeChanged,
    CandidateOracleAuthorityChanged,
    CandidateRequestIdentityChanged,
    CandidateRequestChanged,
    CandidateTerminalChanged,
    CandidateTerminalRoleChanged,
    CandidateBuildAuthorityChanged,
    CandidateBuildChanged,
    CandidateBuildObservationChanged,
    CandidateAdmissionAuthorityChanged,
    CandidateAdmissionOutcomeChanged,
}

/// The diagnostic of a history fault.
pub open spec fn history_fault_text(fault: HistoryFaultV1) -> Seq<char> {
    match fault {
        HistoryFaultV1::IllegalTransition => "illegal Controller workflow event transition"@,
        HistoryFaultV1::VersionOrParentChanged => "Controller event version or causal parent changed"@,
        HistoryFaultV1::TaskAuthorityChanged => "Controller task authority changed"@,
        HistoryFaultV1::SirRequestChanged => "authorized SIR request changed"@,
        HistoryFaultV1::IntentAdmissionDecisionChanged => "Intent Admission decision changed"@,
        HistoryFaultV1::IntentAdmissionReauthorizationChanged => "Intent Admission reauthorization changed decision"@,
        HistoryFaultV1::IntentAdmissionBlockedAuthorityChanged => "Intent Admission blocked authority changed"@,
        HistoryFaultV1::ContractBodyChanged => "admitted intent contract body changed"@,
        HistoryFaultV1::OracleExplorationChanged => "Oracle Exploration authority changed or is noncanonical"@,
        HistoryFaultV1::OracleStrategyStartChanged => "Oracle strategy start authority changed"@,
        HistoryFaultV1::OracleStrategyObservationsChanged => "Oracle strategy observations changed"@,
        HistoryFaultV1::OracleStrategySubmissionChanged => "Oracle strategy submission changed"@,
        HistoryFaultV1::PortfolioOrPolicyChanged => "frozen Oracle portfolio or admission policy changed"@,
        HistoryFaultV1::OracleAdmissionStartChanged => "Oracle Admission start authority changed"@,
        HistoryFaultV1::OracleControlStartChanged => "Oracle control start authority changed"@,
        HistoryFaultV1::OracleControlObservationChanged => "Oracle control observation changed"@,
        HistoryFaultV1::OracleControlAttemptChanged => "Oracle control attempt changed"@,
        HistoryFaultV1::OracleAdmissionOutcomeChanged => "Oracle Admission outcome changed"@,
        HistoryFaultV1::CandidateOracleAuthorityChanged => "Candidate Oracle authority changed"@,
        HistoryFaultV1::CandidateRequestIdentityChanged => "Candidate proposal step request identity changed"@,
        HistoryFaultV1::CandidateRequestChanged => "authorized Candidate request changed"@,
        HistoryFaultV1::CandidateTerminalChanged => "Candidate proposal step terminal changed"@,
        HistoryFaultV1::CandidateTerminalRoleChanged => "Candidate proposal step returned another role"@,
        HistoryFaultV1::CandidateBuildAuthorityChanged => "Candidate build authority changed"@,
        HistoryFaultV1::CandidateBuildChanged => "authorized Candidate build changed"@,
        HistoryFaultV1::CandidateBuildObservationChanged => "Candidate build observation changed"@,
        HistoryFaultV1::CandidateAdmissionAuthorityChanged => "Candidate Admission authority changed"@,
        HistoryFaultV1::CandidateAdmissionOutcomeChanged => "Candidate Admission outcome changed"@,
    }
}

/// Fail-closed Controller transition error.
#[derive(Clone, Copy, Debug, PartialEq, Eq, Structural)]
pub enum ControllerWorkflowError {
    /// The transition is illegal from the current state.
    InvalidTransition,
    /// An exact artifact binding changed.
    BindingMismatch,
    /// The command identity was already used with different input.
    CommandConflict,
    /// Binding validation of an artifact failed.
    Binding,
    /// The recorded history is illegal, noncanonical, or causally broken, and why.
    InvalidHistory(HistoryFaultV1),
}

impl ControllerWorkflowError {
    /// The error's diagnostic; a binding failure's detail is the cause its caller reported.
    pub fn message(&self) -> (r: String)
        ensures
            match *self {
                ControllerWorkflowError::InvalidTransition => r@ == "Controller workflow transition is illegal from the current state"@,
                ControllerWorkflowError::BindingMismatch => r@ == "Controller workflow exact artifact binding changed"@,
                ControllerWorkflowError::CommandConflict => r@ == "Controller workflow command was already used with different input"@,
                ControllerWorkflowError::Binding => r@ == "Controller workflow binding validation failed"@,
                ControllerWorkflowError::InvalidHistory(f) => r@ == "invalid Controller workflow history: "@ + history_fault_text(f),
            },
    {
        match self {
            ControllerWorkflowError::InvalidTransition => "Controller workflow transition is illegal from the current state".to_string(),
            ControllerWorkflowError::BindingMismatch => "Controller workflow exact artifact binding changed".to_string(),
            ControllerWorkflowError::CommandConflict => "Controller workflow command was already used with different input".to_string(),
            ControllerWorkflowError::Binding => "Controller workflow binding validation failed".to_string(),
            ControllerWorkflowError::InvalidHistory(f) => {
                let text = "invalid Controller workflow history: ".to_string();
                text.concat(history_fault_message(*f))
            },
        }
    }
}

/// The diagnostic of a history fault, as text.
pub fn history_fault_message(fault: HistoryFaultV1) -> (r: &'static str)
    ensures
        r@ == history_fault_text(fault),
{
    match fault {
        HistoryFaultV1::IllegalTransition => "illegal Controller workflow event transition",
        HistoryFaultV1::VersionOrParentChanged => "Controller event version or causal parent changed",
        HistoryFaultV1::TaskAuthorityChanged => "Controller task authority changed",
        HistoryFaultV1::SirRequestChanged => "authorized SIR request changed",
        HistoryFaultV1::IntentAdmissionDecisionChanged => "Intent Admission decision changed",
        HistoryFaultV1::IntentAdmissionReauthorizationChanged => "Intent Admission reauthorization changed decision",
        HistoryFaultV1::IntentAdmissionBlockedAuthorityChanged => "Intent Admission blocked authority changed",
        HistoryFaultV1::ContractBodyChanged => "admitted intent contract body changed",
        HistoryFaultV1::OracleExplorationChanged => "Oracle Exploration authority changed or is noncanonical",
        HistoryFaultV1::OracleStrategyStartChanged => "Oracle strategy start authority changed",
        HistoryFaultV1::OracleStrategyObservationsChanged => "Oracle strategy observations changed",
        HistoryFaultV1::OracleStrategySubmissionChanged => "Oracle strategy submission changed",
        HistoryFaultV1::PortfolioOrPolicyChanged => "frozen Oracle portfolio or admission policy changed",
        HistoryFaultV1::OracleAdmissionStartChanged => "Oracle Admission start authority changed",
        HistoryFaultV1::OracleControlStartChanged => "Oracle control start authority changed",
        HistoryFaultV1::OracleControlObservationChanged => "Oracle control observation changed",
        HistoryFaultV1::OracleControlAttemptChanged => "Oracle control attempt changed",
        HistoryFaultV1::OracleAdmissionOutcomeChanged => "Oracle Admission outcome changed",
        HistoryFaultV1::CandidateOracleAuthorityChanged => "Candidate Oracle authority changed",
        HistoryFaultV1::CandidateRequestIdentityChanged => "Candidate proposal step request identity changed",
        HistoryFaultV1::CandidateRequestChanged => "authorized Candidate request changed",
        HistoryFaultV1::CandidateTerminalChanged => "Candidate proposal step terminal changed",
        HistoryFaultV1::CandidateTerminalRoleChanged => "Candidate proposal step returned another role",
        HistoryFaultV1::CandidateBuildAuthorityChanged => "Candidate build authority changed",
        HistoryFaultV1::CandidateBuildChanged => "authorized Candidate build changed",
        HistoryFaultV1::CandidateBuildObservationChanged => "Candidate build observation changed",
        HistoryFaultV1::CandidateAdmissionAuthorityChanged => "Candidate Admission authority changed",
        HistoryFaultV1::CandidateAdmissionOutcomeChanged => "Candidate Admission outcome changed",
    }
}

} // verus!
