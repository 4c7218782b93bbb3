use cairn_server::controller::completion::{
    OracleStrategyRunBindingV1, StrategyCompletionEvidenceV1, SubmissionBindingV1, bind_strategy_completion,
};
use cairn_server::controller::events::CompletionBindingV1;
use cairn_server::controller::effects::{
    BatchStepV1, CitedObservationV1, check_cited_observations, ContractDerivationV1, EntryAuthorityV1, HostEpisodeOutcomeV1, HostEpisodeRoleV1, HostOutcomeStepV1,
    HostPublicationV1, ManagerEntryV1, OracleLedgerEntryV1, OracleObligationResolutionV1, OracleStrategyExecutorV1,
    OracleStrategyStartV1, active_run_observations, admitted_elements, admitted_public_claims, agent_invocation,
    check_agent_completion, check_build_proposal_authority, check_effect_request, check_exploration_material,
    check_observation_binding, check_sir_terminal, deterministic_implementation, observation_batch_step,
    plan_candidate_contract, plan_host_outcome, plan_intent_admission_outcome, plan_oracle_strategy_start,
    recovered_authority, strategy_work_item,
};
use cairn_server::controller::manager::ControllerWorkflowManagerStatusV1;
use cairn_server::controller::state::ControllerWorkflowStateV1;
use cairn_server::controller::types::{
    FrozenCandidateOracleAuthorityV1, FrozenCandidateProposalAuthorityV1, FrozenOracleAdmissionAuthorityV1,
    FrozenOracleExplorationAuthorityV1, FrozenOraclePortfolioAuthorityV1, FrozenOracleStrategyAuthorityV1,
};
use cairn_server::server::error::ServerError;
use cairn_server::supervisor::intent_admission::IntentAdmissionProcessBlockedV1;
use cairn_server::supervisor::proposal_host::ProposalHostProcessBlockedV1;

fn workflow_error(message: &str) -> ServerError {
    ServerError::MigrationWorkflow(message.to_string())
}

fn exploration() -> FrozenOracleExplorationAuthorityV1 {
    FrozenOracleExplorationAuthorityV1 {
        task_id: 5,
        admitted_intent_outcome: 1,
        admitted_intent: 2,
        recovery_input: 3,
        workspace: 4,
        coverage_policy: 6,
        strategy_catalog: 7,
        claims: 8,
        ledger: 9,
        ledger_revision: 1,
    }
}

fn strategy() -> FrozenOracleStrategyAuthorityV1 {
    FrozenOracleStrategyAuthorityV1 { exploration: exploration(), previous_ledger: 9, run: 33 }
}

fn portfolio() -> FrozenOraclePortfolioAuthorityV1 {
    FrozenOraclePortfolioAuthorityV1 { exploration: exploration(), proposal: 40, policy: 41 }
}

#[test]
fn each_manager_entry_needs_its_own_durable_state() {
    let authorized = ControllerWorkflowStateV1::OracleStrategyAuthorized(strategy());
    assert_eq!(
        recovered_authority(ManagerEntryV1::ExecuteOracleStrategyEffect, &authorized),
        Ok(EntryAuthorityV1::Strategy(strategy()))
    );
    assert_eq!(
        recovered_authority(ManagerEntryV1::RecordOracleStrategyTerminal, &authorized),
        Ok(EntryAuthorityV1::Strategy(strategy()))
    );
    assert_eq!(
        recovered_authority(ManagerEntryV1::ExecuteOracleStrategyEffect, &ControllerWorkflowStateV1::NotFound),
        Err(workflow_error("Controller has no authorized Oracle strategy effect"))
    );
    assert_eq!(
        recovered_authority(ManagerEntryV1::RecordOracleStrategySubmission, &ControllerWorkflowStateV1::Cancelled),
        Err(workflow_error("Controller has no authorized Oracle strategy run"))
    );
    let frozen = ControllerWorkflowStateV1::OraclePortfolioFrozen(portfolio());
    assert_eq!(recovered_authority(ManagerEntryV1::AuthorizeOracleAdmission, &frozen), Ok(EntryAuthorityV1::Portfolio(portfolio())));
    assert_eq!(
        recovered_authority(ManagerEntryV1::RecordOracleAdmissionEvidence, &frozen),
        Err(workflow_error("Controller has no authorized Oracle Admission attempt"))
    );
    assert_eq!(
        recovered_authority(ManagerEntryV1::RecordUserIntentDecision, &frozen),
        Err(workflow_error("Controller is not awaiting a user intent decision"))
    );
    assert_eq!(
        recovered_authority(ManagerEntryV1::OpenOracleExploration, &frozen),
        Err(workflow_error("Controller has no admitted intent ready for Oracle Exploration"))
    );
    let admission = FrozenOracleAdmissionAuthorityV1 { portfolio: portfolio(), mechanisms: 50, attempt: 51 };
    assert_eq!(
        recovered_authority(
            ManagerEntryV1::RecordOracleAdmissionEvidence,
            &ControllerWorkflowStateV1::OracleAdmissionAuthorized(admission)
        ),
        Ok(EntryAuthorityV1::Admission(admission))
    );
    assert_eq!(
        recovered_authority(ManagerEntryV1::AuthorizeOracleAdmission, &ControllerWorkflowStateV1::NotFound),
        Err(workflow_error("Controller has no frozen Oracle portfolio ready for Admission"))
    );
}

#[test]
fn host_terminals_must_publish_for_their_role() {
    let sir = HostEpisodeOutcomeV1::Terminal { publication: HostPublicationV1::Sir };
    let candidate = HostEpisodeOutcomeV1::Terminal { publication: HostPublicationV1::CandidateStrategy };
    assert_eq!(plan_host_outcome(HostEpisodeRoleV1::Sir, 12, sir), Ok(HostOutcomeStepV1::RecordTerminal));
    assert_eq!(
        plan_host_outcome(HostEpisodeRoleV1::Sir, 12, candidate),
        Err(workflow_error("SIR Host returned a non-SIR publication"))
    );
    assert_eq!(plan_host_outcome(HostEpisodeRoleV1::CandidateStrategy, 12, candidate), Ok(HostOutcomeStepV1::RecordTerminal));
    assert_eq!(
        plan_host_outcome(HostEpisodeRoleV1::CandidateStrategy, 12, sir),
        Err(workflow_error("Candidate Host returned a non-Candidate publication"))
    );
    assert_eq!(plan_host_outcome(HostEpisodeRoleV1::OracleStrategy, 12, sir), Ok(HostOutcomeStepV1::RecordTerminal));
    assert_eq!(
        plan_host_outcome(HostEpisodeRoleV1::Sir, 12, HostEpisodeOutcomeV1::Blocked(ProposalHostProcessBlockedV1::TimedOut)),
        Ok(HostOutcomeStepV1::Report(ControllerWorkflowManagerStatusV1::ProposalHostBlocked {
            episode_id: 12,
            reason: ProposalHostProcessBlockedV1::TimedOut,
        }))
    );
    assert_eq!(
        plan_host_outcome(HostEpisodeRoleV1::CandidateStrategy, 12, HostEpisodeOutcomeV1::AwaitingController { experiment: 70 }),
        Ok(HostOutcomeStepV1::Report(ControllerWorkflowManagerStatusV1::AwaitingControllerExperiment { experiment: 70 }))
    );
    assert_eq!(
        plan_intent_admission_outcome(21, Err(IntentAdmissionProcessBlockedV1::InvalidOutcome)),
        HostOutcomeStepV1::Report(ControllerWorkflowManagerStatusV1::IntentAdmissionBlocked {
            decision: 21,
            reason: IntentAdmissionProcessBlockedV1::InvalidOutcome,
        })
    );
    assert_eq!(plan_intent_admission_outcome(21, Ok(())), HostOutcomeStepV1::RecordTerminal);
}

#[test]
fn oracle_runs_follow_their_executor() {
    let deterministic = OracleStrategyExecutorV1::Deterministic { implementation: 60 };
    let agent = OracleStrategyExecutorV1::AgentEpisode { invocation: 61 };
    assert_eq!(
        plan_oracle_strategy_start(strategy(), deterministic),
        OracleStrategyStartV1::Report(ControllerWorkflowManagerStatusV1::OracleStrategyReady { authority: strategy() })
    );
    assert_eq!(plan_oracle_strategy_start(strategy(), agent), OracleStrategyStartV1::RunHost { invocation: 61 });
    assert_eq!(deterministic_implementation(deterministic), Ok(60));
    assert_eq!(
        deterministic_implementation(agent),
        Err(workflow_error("Agent-backed Oracle strategy requires a Proposal Host terminal"))
    );
    assert_eq!(agent_invocation(agent), Ok(61));
    assert_eq!(agent_invocation(deterministic), Err(workflow_error("Oracle strategy is not assigned to Proposal Host")));
}

#[test]
fn agent_completions_keep_their_identities_and_role() {
    assert_eq!(check_agent_completion(1, 1, 2, 2, HostPublicationV1::OracleStrategy), Ok(()));
    assert_eq!(
        check_agent_completion(1, 9, 2, 2, HostPublicationV1::OracleStrategy),
        Err(workflow_error("Oracle Proposal Host completion identity changed"))
    );
    assert_eq!(
        check_agent_completion(1, 1, 2, 2, HostPublicationV1::Sir),
        Err(workflow_error("Oracle Proposal Host returned a non-Oracle publication"))
    );
    assert_eq!(check_effect_request(true, 33, 33, 4, 4), Ok(()));
    assert_eq!(check_effect_request(false, 33, 33, 4, 4), Err(workflow_error("Controller effect request is not an Oracle strategy")));
    assert_eq!(
        check_effect_request(true, 34, 33, 4, 4),
        Err(workflow_error("Oracle Host effect changed its authorized request or run"))
    );
    assert_eq!(
        check_effect_request(true, 33, 33, 5, 4),
        Err(workflow_error("Oracle Host effect changed its authorized request or run"))
    );
    assert_eq!(check_observation_binding(7, 33, 7, 33), Ok(()));
    assert_eq!(
        check_observation_binding(8, 33, 7, 33),
        Err(workflow_error("Oracle submission cited an observation from another cell or run"))
    );
    assert_eq!(check_exploration_material(6, 6, 7, 7), Ok(()));
    assert_eq!(
        check_exploration_material(6, 6, 7, 8),
        Err(workflow_error("Oracle workspace policy or strategy catalog identity changed"))
    );
    assert_eq!(check_sir_terminal(Some(20), 20), Ok(()));
    assert_eq!(check_sir_terminal(Some(21), 20), Err(workflow_error("SIR terminal changed the durable proposal observation")));
    assert_eq!(check_sir_terminal(None, 20), Err(workflow_error("SIR terminal changed the durable proposal observation")));
}

#[test]
fn candidate_builds_stay_under_the_frozen_contract() {
    let admission = FrozenOracleAdmissionAuthorityV1 { portfolio: portfolio(), mechanisms: 50, attempt: 51 };
    let candidate = FrozenCandidateOracleAuthorityV1 { oracle: admission, evidence: 52, outcome: 53, contract: 54, workspace: 55 };
    let proposal = FrozenCandidateProposalAuthorityV1 { candidate, request: 56, episode_id: 57 };
    assert_eq!(check_build_proposal_authority(54, &proposal), Ok(()));
    assert_eq!(
        check_build_proposal_authority(99, &proposal),
        Err(workflow_error("Candidate build proposal is outside frozen Oracle authority"))
    );
    assert_eq!(plan_candidate_contract(53, ContractDerivationV1::Derived), Ok(HostOutcomeStepV1::RecordTerminal));
    assert_eq!(
        plan_candidate_contract(53, ContractDerivationV1::NoAdmittedOracleClaims),
        Ok(HostOutcomeStepV1::Report(ControllerWorkflowManagerStatusV1::OracleAdmissionHasNoCandidateAuthority { outcome: 53 }))
    );
    assert_eq!(
        plan_candidate_contract(53, ContractDerivationV1::Failed("contract drift".to_string())),
        Err(workflow_error("contract drift"))
    );
}

fn ledger() -> Vec<OracleLedgerEntryV1> {
    vec![
        OracleLedgerEntryV1 { item: 1, claim: 100, resolution: OracleObligationResolutionV1::Contributed { elements: vec![5] } },
        OracleLedgerEntryV1 {
            item: 2,
            claim: 200,
            resolution: OracleObligationResolutionV1::Running { run: 33, observations: vec![70, 71] },
        },
        OracleLedgerEntryV1 {
            item: 2,
            claim: 300,
            resolution: OracleObligationResolutionV1::Running { run: 34, observations: vec![90] },
        },
    ]
}

#[test]
fn effects_find_the_first_ledger_entry_of_their_item() {
    let entries = ledger();
    assert_eq!(active_run_observations(&entries, 2, 33), Ok(&vec![70, 71]));
    assert_eq!(active_run_observations(&entries, 2, 34), Err(workflow_error("Oracle effect has no active run ledger")));
    assert_eq!(active_run_observations(&entries, 1, 33), Err(workflow_error("Oracle effect has no active run ledger")));
    assert_eq!(active_run_observations(&entries, 3, 33), Err(workflow_error("Oracle effect has no active run ledger")));
    assert_eq!(strategy_work_item(&entries, 2, &vec![300, 200, 200]), Ok((1, 1)));
    assert_eq!(strategy_work_item(&entries, 4, &vec![200]), Err(workflow_error("Oracle strategy work item is absent")));
    assert_eq!(strategy_work_item(&entries, 1, &vec![200]), Err(workflow_error("Oracle strategy claim is absent")));
}

#[test]
fn an_effect_batch_is_projected_at_most_once() {
    let existing = vec![70, 71];
    assert_eq!(observation_batch_step(&vec![72, 73], &existing), Ok(BatchStepV1::Record));
    let mut projected = existing.clone();
    projected.extend([72, 73]);
    assert_eq!(observation_batch_step(&vec![72, 73], &projected), Ok(BatchStepV1::AlreadyProjected));
    assert_eq!(
        observation_batch_step(&vec![71, 74], &existing),
        Err(workflow_error("Oracle effect observation batch is only partially projected"))
    );
    assert_eq!(observation_batch_step(&Vec::new(), &existing), Ok(BatchStepV1::AlreadyProjected));
}

#[test]
fn candidate_requests_carry_only_admitted_contributions() {
    assert_eq!(admitted_public_claims(&vec![4, 1, 3, 2], &vec![2, 4]), vec![4, 2]);
    assert_eq!(admitted_public_claims(&vec![4, 1], &Vec::new()), Vec::<u64>::new());
    let contributions = vec![
        OracleObligationResolutionV1::Contributed { elements: vec![9, 8] },
        OracleObligationResolutionV1::Contributed { elements: Vec::new() },
        OracleObligationResolutionV1::Contributed { elements: vec![7] },
    ];
    assert_eq!(admitted_elements(&contributions), Ok(vec![9, 8, 7]));
    let mixed = vec![
        OracleObligationResolutionV1::Contributed { elements: vec![9] },
        OracleObligationResolutionV1::Running { run: 1, observations: Vec::new() },
    ];
    assert_eq!(admitted_elements(&mixed), Err(workflow_error("admitted Candidate Oracle entry is not a positive contribution")));
}

#[test]
fn completions_bind_only_to_their_own_run_and_item() {
    let run = OracleStrategyRunBindingV1 {
        identity: Some(33),
        item: 7,
        executor: OracleStrategyExecutorV1::Deterministic { implementation: 60 },
    };
    let answer = SubmissionBindingV1 { run: 33, item: 7 };
    let deterministic = StrategyCompletionEvidenceV1::Deterministic { implementation: 60, submission: answer };
    assert_eq!(bind_strategy_completion(&deterministic, &run), CompletionBindingV1::Bound);
    let other_code = StrategyCompletionEvidenceV1::Deterministic { implementation: 61, submission: answer };
    assert_eq!(bind_strategy_completion(&other_code, &run), CompletionBindingV1::Mismatch);
    let other_item = StrategyCompletionEvidenceV1::Deterministic {
        implementation: 60,
        submission: SubmissionBindingV1 { run: 33, item: 8 },
    };
    assert_eq!(bind_strategy_completion(&other_item, &run), CompletionBindingV1::Mismatch);
    let unnamed = OracleStrategyRunBindingV1 { identity: None, ..run };
    assert_eq!(bind_strategy_completion(&deterministic, &unnamed), CompletionBindingV1::Invalid);

    let agent_run = OracleStrategyRunBindingV1 { executor: OracleStrategyExecutorV1::AgentEpisode { invocation: 61 }, ..run };
    let step = StrategyCompletionEvidenceV1::AgentStep {
        request_id: 1,
        request_identity: Some(1),
        terminal_id: 2,
        terminal_identity: Some(2),
        terminal_matches_request: true,
        requested_run_matches: Some(true),
        published: Some(answer),
    };
    assert_eq!(bind_strategy_completion(&step, &agent_run), CompletionBindingV1::Bound);
    let StrategyCompletionEvidenceV1::AgentStep {
        request_id, terminal_id, terminal_matches_request, requested_run_matches, published, ..
    } = step
    else {
        unreachable!()
    };
    let undecodable = StrategyCompletionEvidenceV1::AgentStep {
        request_id,
        request_identity: None,
        terminal_id,
        terminal_identity: Some(2),
        terminal_matches_request,
        requested_run_matches,
        published,
    };
    assert_eq!(bind_strategy_completion(&undecodable, &agent_run), CompletionBindingV1::Invalid);
    let foreign_role = StrategyCompletionEvidenceV1::AgentStep {
        request_id,
        request_identity: Some(1),
        terminal_id,
        terminal_identity: Some(2),
        terminal_matches_request,
        requested_run_matches: None,
        published,
    };
    assert_eq!(bind_strategy_completion(&foreign_role, &agent_run), CompletionBindingV1::Mismatch);
    let drifted = StrategyCompletionEvidenceV1::AgentStep {
        request_id,
        request_identity: Some(9),
        terminal_id,
        terminal_identity: Some(2),
        terminal_matches_request,
        requested_run_matches,
        published,
    };
    assert_eq!(bind_strategy_completion(&drifted, &agent_run), CompletionBindingV1::Mismatch);
}

#[test]
fn submissions_cite_only_their_own_run() {
    let own = CitedObservationV1 { item: 7, run: 33 };
    assert_eq!(check_cited_observations(&vec![own, own], 7, 33), Ok(()));
    assert_eq!(check_cited_observations(&Vec::new(), 7, 33), Ok(()));
    assert_eq!(
        check_cited_observations(&vec![own, CitedObservationV1 { item: 7, run: 34 }], 7, 33),
        Err(workflow_error("Oracle submission cited an observation from another cell or run"))
    );
}
