use vstd::prelude::*;

verus! {

/// Exact SIR authority frozen before the Controller may start the Proposal step effect.
#[derive(Clone, Copy, Debug, PartialEq, Eq, Structural)]
pub struct FrozenSirAuthorityV1 {
    pub task_id: u64,
    pub request: u64,
    pub recovery_input: u64,
    pub episode_id: u64,
}

/// Task-owned Oracle Exploration workspace and the current obligation ledger revision.
#[derive(Clone, Copy, Debug, PartialEq, Eq, Structural)]
pub struct FrozenOracleExplorationAuthorityV1 {
    pub task_id: u64,
    pub admitted_intent_outcome: u64,
    pub admitted_intent: u64,
    pub recovery_input: u64,
    pub workspace: u64,
    pub coverage_policy: u64,
    pub strategy_catalog: u64,
    /// Identity of the canonical claim set derived from the admitted intent.
    pub claims: u64,
    pub ledger: u64,
    pub ledger_revision: u64,
}

/// One authorized Oracle strategy run over the exploration ledger it started from.
#[derive(Clone, Copy, Debug, PartialEq, Eq, Structural)]
pub struct FrozenOracleStrategyAuthorityV1 {
    pub exploration: FrozenOracleExplorationAuthorityV1,
    pub previous_ledger: u64,
    pub run: u64,
}

/// Frozen Oracle portfolio proposal and the strict admission policy.
#[derive(Clone, Copy, Debug, PartialEq, Eq, Structural)]
pub struct FrozenOraclePortfolioAuthorityV1 {
    pub exploration: FrozenOracleExplorationAuthorityV1,
    pub proposal: u64,
    pub policy: u64,
}

/// Qualified Oracle admission mechanisms and the mechanically derived attempt.
#[derive(Clone, Copy, Debug, PartialEq, Eq, Structural)]
pub struct FrozenOracleAdmissionAuthorityV1 {
    pub portfolio: FrozenOraclePortfolioAuthorityV1,
    pub mechanisms: u64,
    pub attempt: u64,
}

/// Start authority of one exact Oracle control run and its dispatch.
#[derive(Clone, Copy, Debug, PartialEq, Eq, Structural)]
pub struct FrozenOracleControlAuthorityV1 {
    pub admission: FrozenOracleAdmissionAuthorityV1,
    pub run: u64,
    pub dispatch: u64,
}

/// Candidate Oracle contract and workspace derived from an admitted Oracle.
#[derive(Clone, Copy, Debug, PartialEq, Eq, Structural)]
pub struct FrozenCandidateOracleAuthorityV1 {
    pub oracle: FrozenOracleAdmissionAuthorityV1,
    pub evidence: u64,
    pub outcome: u64,
    pub contract: u64,
    pub workspace: u64,
}

/// Frozen Candidate proposal-step request.
#[derive(Clone, Copy, Debug, PartialEq, Eq, Structural)]
pub struct FrozenCandidateProposalAuthorityV1 {
    pub candidate: FrozenCandidateOracleAuthorityV1,
    pub request: u64,
    pub episode_id: u64,
}

/// Frozen Candidate build plan and request for one recorded proposal.
#[derive(Clone, Copy, Debug, PartialEq, Eq, Structural)]
pub struct FrozenCandidateBuildAuthorityV1 {
    pub candidate: FrozenCandidateProposalAuthorityV1,
    pub terminal: u64,
    pub proposal: u64,
    pub plan: u64,
    pub request: u64,
}

/// Candidate admission attempt bound to one observed build receipt.
#[derive(Clone, Copy, Debug, PartialEq, Eq, Structural)]
pub struct FrozenCandidateAdmissionAuthorityV1 {
    pub build: FrozenCandidateBuildAuthorityV1,
    pub receipt: u64,
    pub mechanisms: u64,
    pub attempt: u64,
}

/// The facts of an admitted intent contract that later Controller transitions depend on.
#[derive(Clone, Copy, Debug, PartialEq, Eq, Structural)]
pub struct IntentContractBodyV1 {
    /// Identity recomputed from the contract body.
    pub identity: u64,
    pub task_id: u64,
    /// Identity of the Oracle claim set derived from the contract's admitted claim.
    pub oracle_claims: u64,
}

/// Final task outcome; partial evidence is never promoted to success.
#[derive(Clone, Copy, Debug, PartialEq, Eq, Structural)]
pub enum MigrationTerminalStatusV1 {
    Admitted,
    Partial,
    Rejected,
}

/// Durable, non-diagnostic classification of an independently authorized Admission failure.
#[derive(Clone, Copy, Debug, PartialEq, Eq, Structural)]
pub enum IntentAdmissionBlockReasonV1 {
    InvocationDrift,
    TimedOut,
    ExitFailure,
    StdoutLimitExceeded,
    StderrLimitExceeded,
    InvalidOutcome,
}

/// Status of one claim in a Candidate admission outcome.
#[derive(Clone, Copy, Debug, PartialEq, Eq, Structural)]
pub enum CandidateClaimStatusV1 {
    Admitted,
    Partial,
    Rejected,
}

/// Receipt of one trusted Oracle control observation for one obligation cell.
#[derive(Clone, Copy, Debug, PartialEq, Eq, Structural)]
pub struct OracleControlReceiptV1 {
    pub item: u64,
    pub control: u64,
    pub receipt: u64,
}

/// Ordered receipts recorded during one Oracle admission attempt.
#[derive(Debug, PartialEq, Eq)]
pub enum ReceiptList {
    Empty,
    Cons(OracleControlReceiptV1, Box<ReceiptList>),
}

impl ReceiptList {
    /// The number of receipts in the list.
    pub open spec fn len_spec(&self) -> nat
        decreases self,
    {
        match self {
            ReceiptList::Empty => 0,
            ReceiptList::Cons(_, rest) => 1 + rest.len_spec(),
        }
    }

    /// Whether some receipt already covers the obligation cell `(item, control)`.
    pub open spec fn covers(&self, item: u64, control: u64) -> bool
        decreases self,
    {
        match self {
            ReceiptList::Empty => false,
            ReceiptList::Cons(r, rest) => (r.item == item && r.control == control) || rest.covers(item, control),
        }
    }

    /// The list with `receipt` appended at the end.
    pub open spec fn pushed(&self, receipt: OracleControlReceiptV1) -> ReceiptList
        decreases self,
    {
        match self {
            ReceiptList::Empty => ReceiptList::Cons(receipt, Box::new(ReceiptList::Empty)),
            ReceiptList::Cons(r, rest) => ReceiptList::Cons(*r, Box::new(rest.pushed(receipt))),
        }
    }

    /// Returns an equal copy.
    pub fn copy(&self) -> (r: ReceiptList)
        ensures
            r == *self,
        decreases self,
    {
        match self {
            ReceiptList::Empty => ReceiptList::Empty,
            ReceiptList::Cons(r, rest) => ReceiptList::Cons(*r, Box::new(rest.copy())),
        }
    }

    /// Exact structural comparison.
    pub fn same(&self, other: &ReceiptList) -> (r: bool)
        ensures
            r == (*self == *other),
        decreases self,
    {
        match (self, other) {
            (ReceiptList::Empty, ReceiptList::Empty) => true,
            (ReceiptList::Cons(a, ra), ReceiptList::Cons(b, rb)) => *a == *b && ra.same(rb),
            _ => false,
        }
    }

    /// Whether some receipt already covers the obligation cell `(item, control)`.
    pub fn has_cell(&self, item: u64, control: u64) -> (r: bool)
        ensures
            r == self.covers(item, control),
        decreases self,
    {
        match self {
            ReceiptList::Empty => false,
            ReceiptList::Cons(r, rest) => (r.item == item && r.control == control) || rest.has_cell(item, control),
        }
    }

    /// Appends `receipt` at the end.
    pub fn push(self, receipt: OracleControlReceiptV1) -> (r: ReceiptList)
        ensures
            r == self.pushed(receipt),
        decreases self,
    {
        match self {
            ReceiptList::Empty => ReceiptList::Cons(receipt, Box::new(ReceiptList::Empty)),
            ReceiptList::Cons(r, rest) => ReceiptList::Cons(r, Box::new((*rest).push(receipt))),
        }
    }
}

} // verus!
