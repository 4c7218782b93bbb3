use cairn_server::controller_workflow::{
    ControllerStageV1, ControllerWorkflowStages, WorkflowStepV1, advance_workflow, next_stage, run_controller_workflow,
    stage_trace,
};

#[derive(Debug, PartialEq, Eq)]
struct StageFailure(ControllerStageV1);

#[derive(Default)]
struct RecordedStages {
    trace: Vec<ControllerStageV1>,
    fail_at: Option<ControllerStageV1>,
}

impl RecordedStages {
    fn record(&mut self, stage: ControllerStageV1) -> Result<(), StageFailure> {
        self.trace.push(stage);
        if self.fail_at == Some(stage) {
            return Err(StageFailure(stage));
        }
        Ok(())
    }
}

struct Request;
struct FrozenRequest;
struct SirProposal;
struct AdmittedIntent;
struct OracleBlueProposal;
struct OracleRedProposal;
struct AdmittedOracle;
struct CandidateProposal;
struct WorkerObservations;
struct AdmittedCandidate;
struct TerminalOutcome;

impl ControllerWorkflowStages for RecordedStages {
    type Error = StageFailure;
    type Request = Request;
    type FrozenRequest = FrozenRequest;
    type SirProposal = SirProposal;
    type AdmittedIntent = AdmittedIntent;
    type OracleBlueProposal = OracleBlueProposal;
    type OracleRedProposal = OracleRedProposal;
    type AdmittedOracle = AdmittedOracle;
    type CandidateProposal = CandidateProposal;
    type WorkerObservations = WorkerObservations;
    type AdmittedCandidate = AdmittedCandidate;
    type TerminalOutcome = TerminalOutcome;

    fn started(&self) -> vstd::seq::Seq<(ControllerStageV1, Option<StageFailure>)> {
        unreachable!("the started stages are a specification view; only `trace` is observed at run time")
    }

    fn saved(&self) -> Option<TerminalOutcome> {
        unreachable!("the saved outcome is a specification view; only the returned outcome is observed at run time")
    }

    fn freeze_controller_request(&mut self, _request: Request) -> Result<FrozenRequest, StageFailure> {
        self.record(ControllerStageV1::Freeze).map(|()| FrozenRequest)
    }

    fn run_sir_proposal_loop(&mut self, _frozen: &FrozenRequest) -> Result<SirProposal, StageFailure> {
        self.record(ControllerStageV1::Sir).map(|()| SirProposal)
    }

    fn run_intent_admission_gate(
        &mut self,
        _frozen: &FrozenRequest,
        _proposal: SirProposal,
    ) -> Result<AdmittedIntent, StageFailure> {
        self.record(ControllerStageV1::IntentAdmission).map(|()| AdmittedIntent)
    }

    fn run_oracle_blue_proposal_loop(
        &mut self,
        _frozen: &FrozenRequest,
        _intent: &AdmittedIntent,
    ) -> Result<OracleBlueProposal, StageFailure> {
        self.record(ControllerStageV1::OracleBlue).map(|()| OracleBlueProposal)
    }

    fn run_oracle_red_proposal_loop(
        &mut self,
        _frozen: &FrozenRequest,
        _intent: &AdmittedIntent,
        _blue: &OracleBlueProposal,
    ) -> Result<OracleRedProposal, StageFailure> {
        self.record(ControllerStageV1::OracleRed).map(|()| OracleRedProposal)
    }

    fn run_oracle_admission_gate(
        &mut self,
        _frozen: &FrozenRequest,
        _intent: &AdmittedIntent,
        _blue: OracleBlueProposal,
        _red: OracleRedProposal,
    ) -> Result<AdmittedOracle, StageFailure> {
        self.record(ControllerStageV1::OracleAdmission).map(|()| AdmittedOracle)
    }

    fn run_candidate_proposal_loop(
        &mut self,
        _frozen: &FrozenRequest,
        _intent: &AdmittedIntent,
        _oracle: &AdmittedOracle,
    ) -> Result<CandidateProposal, StageFailure> {
        self.record(ControllerStageV1::Candidate).map(|()| CandidateProposal)
    }

    fn collect_worker_observations(
        &mut self,
        _frozen: &FrozenRequest,
        _candidate: &CandidateProposal,
    ) -> Result<WorkerObservations, StageFailure> {
        self.record(ControllerStageV1::WorkerObservations).map(|()| WorkerObservations)
    }

    fn run_candidate_admission_gate(
        &mut self,
        _frozen: &FrozenRequest,
        _intent: &AdmittedIntent,
        _oracle: &AdmittedOracle,
        _candidate: CandidateProposal,
        _observations: WorkerObservations,
    ) -> Result<AdmittedCandidate, StageFailure> {
        self.record(ControllerStageV1::CandidateAdmission).map(|()| AdmittedCandidate)
    }

    fn save_terminal_outcome(
        &mut self,
        _frozen: FrozenRequest,
        _intent: AdmittedIntent,
        _oracle: AdmittedOracle,
        _candidate: AdmittedCandidate,
    ) -> Result<TerminalOutcome, StageFailure> {
        self.record(ControllerStageV1::Terminal).map(|()| TerminalOutcome)
    }
}

fn complete_order() -> Vec<ControllerStageV1> {
    vec![
        ControllerStageV1::Freeze,
        ControllerStageV1::Sir,
        ControllerStageV1::IntentAdmission,
        ControllerStageV1::OracleBlue,
        ControllerStageV1::OracleRed,
        ControllerStageV1::OracleAdmission,
        ControllerStageV1::Candidate,
        ControllerStageV1::WorkerObservations,
        ControllerStageV1::CandidateAdmission,
        ControllerStageV1::Terminal,
    ]
}

#[test]
fn business_skeleton_exposes_the_complete_controller_stage_order() {
    let mut stages = RecordedStages::default();

    let _ = run_controller_workflow(&mut stages, Request).ok().expect("recorded skeleton");

    assert_eq!(stages.trace, complete_order());
}

#[test]
fn unavailable_stage_stops_before_any_downstream_authority() {
    let mut stages = RecordedStages { fail_at: Some(ControllerStageV1::OracleBlue), ..RecordedStages::default() };

    let error = match run_controller_workflow(&mut stages, Request) {
        Ok(_) => panic!("unimplemented Oracle Blue stage must fail closed"),
        Err(error) => error,
    };

    assert_eq!(error, StageFailure(ControllerStageV1::OracleBlue));
    assert_eq!(
        stages.trace,
        vec![
            ControllerStageV1::Freeze,
            ControllerStageV1::Sir,
            ControllerStageV1::IntentAdmission,
            ControllerStageV1::OracleBlue,
        ]
    );
}

#[test]
fn stage_trace_matches_the_executed_workflow() {
    let (trace, end) = stage_trace(None);
    assert_eq!(trace, complete_order());
    assert_eq!(end, WorkflowStepV1::Finished);

    let (trace, end) = stage_trace(Some(ControllerStageV1::OracleBlue));
    assert_eq!(trace, complete_order()[..4].to_vec());
    assert_eq!(end, WorkflowStepV1::Stopped(ControllerStageV1::OracleBlue));

    let (trace, end) = stage_trace(Some(ControllerStageV1::Freeze));
    assert_eq!(trace, vec![ControllerStageV1::Freeze]);
    assert_eq!(end, WorkflowStepV1::Stopped(ControllerStageV1::Freeze));

    for stage in complete_order() {
        let mut stages = RecordedStages { fail_at: Some(stage), ..RecordedStages::default() };
        let _ = run_controller_workflow(&mut stages, Request);
        assert_eq!(stages.trace, stage_trace(Some(stage)).0);
    }
}

#[test]
fn each_stage_hands_over_to_the_next() {
    assert_eq!(next_stage(ControllerStageV1::Freeze), Some(ControllerStageV1::Sir));
    assert_eq!(next_stage(ControllerStageV1::CandidateAdmission), Some(ControllerStageV1::Terminal));
    assert_eq!(next_stage(ControllerStageV1::Terminal), None);
    assert_eq!(advance_workflow(ControllerStageV1::OracleRed, true), WorkflowStepV1::Run(ControllerStageV1::OracleAdmission));
    assert_eq!(advance_workflow(ControllerStageV1::OracleRed, false), WorkflowStepV1::Stopped(ControllerStageV1::OracleRed));
    assert_eq!(advance_workflow(ControllerStageV1::Terminal, true), WorkflowStepV1::Finished);
}
