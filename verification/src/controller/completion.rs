use vstd::prelude::*;

use crate::controller::effects::OracleStrategyExecutorV1;
use crate::controller::events::CompletionBindingV1;

verus! {

/// The run and work item a strategy submission says it answers.
#[derive(Clone, Copy, Debug, PartialEq, Eq, Structural)]
pub struct SubmissionBindingV1 {
    pub run: u64,
    pub item: u64,
}

/// What a completion is bound against: the authorized run.
#[derive(Clone, Copy, Debug, PartialEq, Eq, Structural)]
pub struct OracleStrategyRunBindingV1 {
    /// The run's content identity, or `None` when it cannot be computed.
    pub identity: Option<u64>,
    pub item: u64,
    pub executor: OracleStrategyExecutorV1,
}

/// The executor-specific evidence a strategy completion carries.
#[derive(Clone, Copy, Debug, PartialEq, Eq, Structural)]
pub enum StrategyCompletionEvidenceV1 {
    /// The archived implementation and its submission.
    Deterministic { implementation: u64, submission: SubmissionBindingV1 },
    /// A proposal-step request and terminal, as recomputed by the Controller.
    AgentStep {
        request_id: u64,
        /// The request's recomputed identity, or `None` when it cannot be computed.
        request_identity: Option<u64>,
        terminal_id: u64,
        /// The terminal's recomputed identity, or `None` when it cannot be computed.
        terminal_identity: Option<u64>,
        /// Whether the terminal validates against the request.
        terminal_matches_request: bool,
        /// For an Oracle-strategy request, whether it names exactly the run; `None` for
        /// another role.
        requested_run_matches: Option<bool>,
        /// The submission an Oracle-strategy publication carries; `None` for another
        /// publication.
        published: Option<SubmissionBindingV1>,
    },
}

/// The submission a completion's evidence yields for a run, or how it fails to bind.
pub open spec fn evidence_submission(
    evidence: StrategyCompletionEvidenceV1,
    run: OracleStrategyRunBindingV1,
) -> Result<SubmissionBindingV1, CompletionBindingV1> {
    match evidence {
        StrategyCompletionEvidenceV1::Deterministic { implementation, submission } => if run.executor
            == (OracleStrategyExecutorV1::Deterministic { implementation }) {
            Ok(submission)
        } else {
            Err(CompletionBindingV1::Mismatch)
        },
        StrategyCompletionEvidenceV1::AgentStep {
            request_id,
            request_identity,
            terminal_id,
            terminal_identity,
            terminal_matches_request,
            requested_run_matches,
            published,
        } => match request_identity {
            None => Err(CompletionBindingV1::Invalid),
            Some(rid) => if rid != request_id {
                Err(CompletionBindingV1::Mismatch)
            } else {
                match terminal_identity {
                    None => Err(CompletionBindingV1::Invalid),
                    Some(tid) => if tid != terminal_id || !terminal_matches_request || requested_run_matches
                        != Some(true) || published is None {
                        Err(CompletionBindingV1::Mismatch)
                    } else {
                        Ok(published->0)
                    },
                }
            },
        },
    }
}

/// How a completion binds to the authorized run: its evidence must be the run's own executor,
/// and its submission must answer exactly the run and its work item.
pub open spec fn completion_binding(
    evidence: StrategyCompletionEvidenceV1,
    run: OracleStrategyRunBindingV1,
) -> CompletionBindingV1 {
    match evidence_submission(evidence, run) {
        Err(failure) => failure,
        Ok(submission) => match run.identity {
            None => CompletionBindingV1::Invalid,
            Some(id) => if submission.run != id || submission.item != run.item {
                CompletionBindingV1::Mismatch
            } else {
                CompletionBindingV1::Bound
            },
        },
    }
}

/// Binds a strategy completion to the authorized run.
pub fn bind_strategy_completion(evidence: &StrategyCompletionEvidenceV1, run: &OracleStrategyRunBindingV1) -> (r:
    CompletionBindingV1)
    ensures
        r == completion_binding(*evidence, *run),
        r == CompletionBindingV1::Bound ==> run.identity is Some,
{
    let submission = match evidence {
        StrategyCompletionEvidenceV1::Deterministic { implementation, submission } => {
            let same = match run.executor {
                OracleStrategyExecutorV1::Deterministic { implementation: i } => i == *implementation,
                OracleStrategyExecutorV1::AgentEpisode { .. } => false,
            };
            if !same {
                return CompletionBindingV1::Mismatch;
            }
            *submission
        },
        StrategyCompletionEvidenceV1::AgentStep {
            request_id,
            request_identity,
            terminal_id,
            terminal_identity,
            terminal_matches_request,
            requested_run_matches,
            published,
        } => {
            let rid = match request_identity {
                None => return CompletionBindingV1::Invalid,
                Some(rid) => *rid,
            };
            if rid != *request_id {
                return CompletionBindingV1::Mismatch;
            }
            let tid = match terminal_identity {
                None => return CompletionBindingV1::Invalid,
                Some(tid) => *tid,
            };
            if tid != *terminal_id || !*terminal_matches_request {
                return CompletionBindingV1::Mismatch;
            }
            let run_matches = match requested_run_matches {
                Some(m) => *m,
                None => false,
            };
            match published {
                Some(submission) => {
                    if !run_matches {
                        return CompletionBindingV1::Mismatch;
                    }
                    *submission
                },
                None => return CompletionBindingV1::Mismatch,
            }
        },
    };
    match run.identity {
        None => CompletionBindingV1::Invalid,
        Some(id) => if submission.run != id || submission.item != run.item {
            CompletionBindingV1::Mismatch
        } else {
            CompletionBindingV1::Bound
        },
    }
}

/// A bound completion answers exactly the authorized run and its work item.
pub proof fn lemma_bound_completion_answers_the_run(
    evidence: StrategyCompletionEvidenceV1,
    run: OracleStrategyRunBindingV1,
)
    requires
        completion_binding(evidence, run) == CompletionBindingV1::Bound,
    ensures
        evidence_submission(evidence, run) matches Ok(s) && run.identity == Some(s.run) && s.item == run.item,
{
}

} // verus!
