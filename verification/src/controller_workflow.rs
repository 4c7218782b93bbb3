//! The Controller business workflow's stage order and its strongly typed stage ports.

use vstd::prelude::*;

verus! {

/// One product stage of the Controller business workflow.
#[derive(Clone, Copy, Debug, PartialEq, Eq, Structural)]
pub enum ControllerStageV1 {
    Freeze,
    Sir,
    IntentAdmission,
    OracleBlue,
    OracleRed,
    OracleAdmission,
    Candidate,
    WorkerObservations,
    CandidateAdmission,
    Terminal,
}

/// The complete stage order of one Controller workflow.
pub open spec fn stage_order() -> Seq<ControllerStageV1> {
    seq![
        ControllerStageV1::Freeze,
        ControllerStageV1::Sir,
        ControllerStageV1::IntentAdmission,
        ControllerStageV1::OracleBlue,
        ControllerStageV1::OracleRed,
        ControllerStageV1::OracleAdmission,
        ControllerStageV1::Candidate,
        ControllerStageV1::WorkerObservations,
        ControllerStageV1::CandidateAdmission,
        ControllerStageV1::Terminal,
    ]
}

/// The position of a stage in the workflow.
pub open spec fn stage_position(stage: ControllerStageV1) -> int {
    match stage {
        ControllerStageV1::Freeze => 0,
        ControllerStageV1::Sir => 1,
        ControllerStageV1::IntentAdmission => 2,
        ControllerStageV1::OracleBlue => 3,
        ControllerStageV1::OracleRed => 4,
        ControllerStageV1::OracleAdmission => 5,
        ControllerStageV1::Candidate => 6,
        ControllerStageV1::WorkerObservations => 7,
        ControllerStageV1::CandidateAdmission => 8,
        ControllerStageV1::Terminal => 9,
    }
}

/// The stage that follows a completed stage; nothing follows the terminal outcome.
pub fn next_stage(stage: ControllerStageV1) -> (r: Option<ControllerStageV1>)
    ensures
        stage_order()[stage_position(stage)] == stage,
        match r {
            Some(next) => stage_position(stage) < 9 && next == stage_order()[stage_position(stage) + 1],
            None => stage_position(stage) == 9,
        },
{
    match stage {
        ControllerStageV1::Freeze => Some(ControllerStageV1::Sir),
        ControllerStageV1::Sir => Some(ControllerStageV1::IntentAdmission),
        ControllerStageV1::IntentAdmission => Some(ControllerStageV1::OracleBlue),
        ControllerStageV1::OracleBlue => Some(ControllerStageV1::OracleRed),
        ControllerStageV1::OracleRed => Some(ControllerStageV1::OracleAdmission),
        ControllerStageV1::OracleAdmission => Some(ControllerStageV1::Candidate),
        ControllerStageV1::Candidate => Some(ControllerStageV1::WorkerObservations),
        ControllerStageV1::WorkerObservations => Some(ControllerStageV1::CandidateAdmission),
        ControllerStageV1::CandidateAdmission => Some(ControllerStageV1::Terminal),
        ControllerStageV1::Terminal => None,
    }
}

/// What the workflow does after a stage reports.
#[derive(Clone, Copy, Debug, PartialEq, Eq, Structural)]
pub enum WorkflowStepV1 {
    /// Run this stage next.
    Run(ControllerStageV1),
    /// The terminal outcome was saved.
    Finished,
    /// The stage failed; no later stage runs and no later artifact is fabricated.
    Stopped(ControllerStageV1),
}

/// The workflow's reaction to one stage report: a completed stage hands over to the next one, a
/// failed stage stops the workflow at that stage.
pub fn advance_workflow(stage: ControllerStageV1, completed: bool) -> (r: WorkflowStepV1)
    ensures
        !completed ==> r == WorkflowStepV1::Stopped(stage),
        completed && stage_position(stage) < 9 ==> r == WorkflowStepV1::Run(stage_order()[stage_position(stage) + 1]),
        completed && stage_position(stage) == 9 ==> r == WorkflowStepV1::Finished,
{
    if !completed {
        return WorkflowStepV1::Stopped(stage);
    }
    match next_stage(stage) {
        Some(next) => WorkflowStepV1::Run(next),
        None => WorkflowStepV1::Finished,
    }
}

/// The stages a workflow runs when `fail_at` (if any) is the only stage that fails, and how it
/// ends: every stage in order, stopping at the failed one.
pub fn stage_trace(fail_at: Option<ControllerStageV1>) -> (r: (Vec<ControllerStageV1>, WorkflowStepV1))
    ensures
        match fail_at {
            None => r.0@ == stage_order() && r.1 == WorkflowStepV1::Finished,
            Some(f) => r.0@ == stage_order().take(stage_position(f) + 1) && r.1 == WorkflowStepV1::Stopped(f),
        },
{
    let mut trace: Vec<ControllerStageV1> = Vec::new();
    let mut stage = ControllerStageV1::Freeze;
    loop
        invariant
            0 <= stage_position(stage) <= 9,
            trace@ == stage_order().take(stage_position(stage)),
            stage_order()[stage_position(stage)] == stage,
            fail_at matches Some(f) ==> stage_position(stage) <= stage_position(f),
        decreases 9 - stage_position(stage),
    {
        trace.push(stage);
        assert(stage_order().take(stage_position(stage) + 1) == stage_order().take(stage_position(stage)).push(stage));
        let failed = match fail_at {
            Some(f) => f == stage,
            None => false,
        };
        match advance_workflow(stage, !failed) {
            WorkflowStepV1::Run(next) => {
                stage = next;
            },
            outcome => {
                proof {
                    if fail_at is None {
                        assert(stage_order().take(10) == stage_order());
                    }
                }
                return (trace, outcome);
            },
        }
    }
}

/// Every stage runs in the fixed product order: a workflow whose stages all complete visits all
/// ten stages exactly once, from freezing the request to saving the terminal outcome.
pub proof fn lemma_complete_stage_order()
    ensures
        stage_order().len() == 10,
        forall|s: ControllerStageV1| #[trigger] stage_order()[stage_position(s)] == s,
        forall|i: int, j: int| 0 <= i < j < 10 ==> stage_order()[i] != stage_order()[j],
{
    assert forall|s: ControllerStageV1| #[trigger] stage_order()[stage_position(s)] == s by {
        match s {
            ControllerStageV1::Freeze => {},
            _ => {},
        }
    }
}

/// Domain ports required to execute one complete Controller workflow. Associated artifact types
/// keep proposals, admitted authority, observations and terminal outcomes distinct; there are no
/// default stage implementations.
pub trait ControllerWorkflowStages {
    type Error;
    type Request;
    type FrozenRequest;
    type SirProposal;
    type AdmittedIntent;
    type OracleBlueProposal;
    type OracleRedProposal;
    type AdmittedOracle;
    type CandidateProposal;
    type WorkerObservations;
    type AdmittedCandidate;
    type TerminalOutcome;

    /// The stages this implementation has started, in the order it started them, each with the
    /// error it failed with, if it failed.
    spec fn started(&self) -> Seq<(ControllerStageV1, Option<Self::Error>)>;

    /// The terminal outcome the terminal stage saved, once it has saved one.
    spec fn saved(&self) -> Option<Self::TerminalOutcome>;

    fn freeze_controller_request(&mut self, request: Self::Request) -> (r: Result<Self::FrozenRequest, Self::Error>)
        ensures
            final(self).started() == old(self).started().push((ControllerStageV1::Freeze, failure(r))),
    ;

    fn run_sir_proposal_loop(&mut self, frozen: &Self::FrozenRequest) -> (r: Result<Self::SirProposal, Self::Error>)
        ensures
            final(self).started() == old(self).started().push((ControllerStageV1::Sir, failure(r))),
    ;

    fn run_intent_admission_gate(
        &mut self,
        frozen: &Self::FrozenRequest,
        proposal: Self::SirProposal,
    ) -> (r: Result<Self::AdmittedIntent, Self::Error>)
        ensures
            final(self).started() == old(self).started().push((ControllerStageV1::IntentAdmission, failure(r))),
    ;

    fn run_oracle_blue_proposal_loop(
        &mut self,
        frozen: &Self::FrozenRequest,
        intent: &Self::AdmittedIntent,
    ) -> (r: Result<Self::OracleBlueProposal, Self::Error>)
        ensures
            final(self).started() == old(self).started().push((ControllerStageV1::OracleBlue, failure(r))),
    ;

    fn run_oracle_red_proposal_loop(
        &mut self,
        frozen: &Self::FrozenRequest,
        intent: &Self::AdmittedIntent,
        blue: &Self::OracleBlueProposal,
    ) -> (r: Result<Self::OracleRedProposal, Self::Error>)
        ensures
            final(self).started() == old(self).started().push((ControllerStageV1::OracleRed, failure(r))),
    ;

    fn run_oracle_admission_gate(
        &mut self,
        frozen: &Self::FrozenRequest,
        intent: &Self::AdmittedIntent,
        blue: Self::OracleBlueProposal,
        red: Self::OracleRedProposal,
    ) -> (r: Result<Self::AdmittedOracle, Self::Error>)
        ensures
            final(self).started() == old(self).started().push((ControllerStageV1::OracleAdmission, failure(r))),
    ;

    fn run_candidate_proposal_loop(
        &mut self,
        frozen: &Self::FrozenRequest,
        intent: &Self::AdmittedIntent,
        oracle: &Self::AdmittedOracle,
    ) -> (r: Result<Self::CandidateProposal, Self::Error>)
        ensures
            final(self).started() == old(self).started().push((ControllerStageV1::Candidate, failure(r))),
    ;

    fn collect_worker_observations(
        &mut self,
        frozen: &Self::FrozenRequest,
        candidate: &Self::CandidateProposal,
    ) -> (r: Result<Self::WorkerObservations, Self::Error>)
        ensures
            final(self).started() == old(self).started().push((ControllerStageV1::WorkerObservations, failure(r))),
    ;

    fn run_candidate_admission_gate(
        &mut self,
        frozen: &Self::FrozenRequest,
        intent: &Self::AdmittedIntent,
        oracle: &Self::AdmittedOracle,
        candidate: Self::CandidateProposal,
        observations: Self::WorkerObservations,
    ) -> (r: Result<Self::AdmittedCandidate, Self::Error>)
        ensures
            final(self).started() == old(self).started().push((ControllerStageV1::CandidateAdmission, failure(r))),
    ;

    fn save_terminal_outcome(
        &mut self,
        frozen: Self::FrozenRequest,
        intent: Self::AdmittedIntent,
        oracle: Self::AdmittedOracle,
        candidate: Self::AdmittedCandidate,
    ) -> (r: Result<Self::TerminalOutcome, Self::Error>)
        ensures
            final(self).started() == old(self).started().push((ControllerStageV1::Terminal, failure(r))),
            r matches Ok(outcome) ==> final(self).saved() == Some(outcome),
    ;
}

/// The error a stage failed with, if it failed.
pub open spec fn failure<T, E>(r: Result<T, E>) -> Option<E> {
    match r {
        Ok(_) => None,
        Err(e) => Some(e),
    }
}

/// The stages a workflow has started when it stops at position `k`: every stage up to that one,
/// in order, each completed but the last, which ends with `last`.
pub open spec fn stage_log<E>(k: int, last: Option<E>) -> Seq<(ControllerStageV1, Option<E>)> {
    Seq::new((k + 1) as nat, |i: int| (stage_order()[i], if i == k { last } else { None::<E> }))
}

proof fn lemma_first_stage<E>(before: Seq<(ControllerStageV1, Option<E>)>, last: Option<E>)
    ensures
        before.push((ControllerStageV1::Freeze, last)) == before + stage_log(0, last),
{
    assert(before.push((ControllerStageV1::Freeze, last)) =~= before + stage_log(0, last));
}

proof fn lemma_next_stage<E>(before: Seq<(ControllerStageV1, Option<E>)>, k: int, last: Option<E>)
    requires
        0 < k < 10,
    ensures
        (before + stage_log::<E>(k - 1, None)).push((stage_order()[k], last)) == before + stage_log(k, last),
{
    assert((before + stage_log::<E>(k - 1, None)).push((stage_order()[k], last)) =~= before + stage_log(k, last));
}

/// A run that stops with error `e` at stage `k` has started exactly the stages up to that one.
proof fn lemma_stopped<E>(
    started: Seq<(ControllerStageV1, Option<E>)>,
    before: Seq<(ControllerStageV1, Option<E>)>,
    k: int,
    e: E,
)
    requires
        0 <= k < 10,
        started == before + stage_log(k, Some(e)),
    ensures
        exists|j: int| 0 <= j < 10 && started == before + #[trigger] stage_log(j, Some(e)),
{
}

/// Executes the complete Controller business workflow through the stage ports, in the order of
/// `stage_order`: each stage receives what the stages before it returned, the first stage
/// error is the result and no later stage runs, and otherwise the result is the outcome the
/// terminal stage saved.
pub fn run_controller_workflow<S: ControllerWorkflowStages>(stages: &mut S, request: S::Request) -> (r: Result<
    S::TerminalOutcome,
    S::Error,
>)
    ensures
        r is Ok ==> final(stages).started() == old(stages).started() + stage_log::<S::Error>(9, None),
        r matches Ok(outcome) ==> final(stages).saved() == Some(outcome),
        r matches Err(e) ==> exists|k: int|
            0 <= k < 10 && final(stages).started() == old(stages).started() + #[trigger] stage_log(k, Some(e)),
{
    let ghost before = stages.started();
    assert(before == old(stages).started());
    let frozen = stages.freeze_controller_request(request);
    proof { lemma_first_stage(before, failure(frozen)); }
    let frozen = match frozen {
        Ok(v) => v,
        Err(e) => {
            let out: Result<S::TerminalOutcome, S::Error> = Err(e);
            proof { lemma_stopped(stages.started(), before, 0, out->Err_0); }
            return out;
        },
    };
    let sir = stages.run_sir_proposal_loop(&frozen);
    proof { lemma_next_stage(before, 1, failure(sir)); }
    let sir = match sir {
        Ok(v) => v,
        Err(e) => {
            let out: Result<S::TerminalOutcome, S::Error> = Err(e);
            proof { lemma_stopped(stages.started(), before, 1, out->Err_0); }
            return out;
        },
    };
    let intent = stages.run_intent_admission_gate(&frozen, sir);
    proof { lemma_next_stage(before, 2, failure(intent)); }
    let intent = match intent {
        Ok(v) => v,
        Err(e) => {
            let out: Result<S::TerminalOutcome, S::Error> = Err(e);
            proof { lemma_stopped(stages.started(), before, 2, out->Err_0); }
            return out;
        },
    };
    let blue = stages.run_oracle_blue_proposal_loop(&frozen, &intent);
    proof { lemma_next_stage(before, 3, failure(blue)); }
    let blue = match blue {
        Ok(v) => v,
        Err(e) => {
            let out: Result<S::TerminalOutcome, S::Error> = Err(e);
            proof { lemma_stopped(stages.started(), before, 3, out->Err_0); }
            return out;
        },
    };
    let red = stages.run_oracle_red_proposal_loop(&frozen, &intent, &blue);
    proof { lemma_next_stage(before, 4, failure(red)); }
    let red = match red {
        Ok(v) => v,
        Err(e) => {
            let out: Result<S::TerminalOutcome, S::Error> = Err(e);
            proof { lemma_stopped(stages.started(), before, 4, out->Err_0); }
            return out;
        },
    };
    let oracle = stages.run_oracle_admission_gate(&frozen, &intent, blue, red);
    proof { lemma_next_stage(before, 5, failure(oracle)); }
    let oracle = match oracle {
        Ok(v) => v,
        Err(e) => {
            let out: Result<S::TerminalOutcome, S::Error> = Err(e);
            proof { lemma_stopped(stages.started(), before, 5, out->Err_0); }
            return out;
        },
    };
    let candidate = stages.run_candidate_proposal_loop(&frozen, &intent, &oracle);
    proof { lemma_next_stage(before, 6, failure(candidate)); }
    let candidate = match candidate {
        Ok(v) => v,
        Err(e) => {
            let out: Result<S::TerminalOutcome, S::Error> = Err(e);
            proof { lemma_stopped(stages.started(), before, 6, out->Err_0); }
            return out;
        },
    };
    let observations = stages.collect_worker_observations(&frozen, &candidate);
    proof { lemma_next_stage(before, 7, failure(observations)); }
    let observations = match observations {
        Ok(v) => v,
        Err(e) => {
            let out: Result<S::TerminalOutcome, S::Error> = Err(e);
            proof { lemma_stopped(stages.started(), before, 7, out->Err_0); }
            return out;
        },
    };
    let admitted = stages.run_candidate_admission_gate(&frozen, &intent, &oracle, candidate, observations);
    proof { lemma_next_stage(before, 8, failure(admitted)); }
    let admitted = match admitted {
        Ok(v) => v,
        Err(e) => {
            let out: Result<S::TerminalOutcome, S::Error> = Err(e);
            proof { lemma_stopped(stages.started(), before, 8, out->Err_0); }
            return out;
        },
    };
    let outcome = stages.save_terminal_outcome(frozen, intent, oracle, admitted);
    proof { lemma_next_stage(before, 9, failure(outcome)); }
    outcome
}

} // verus!
