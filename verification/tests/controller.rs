use cairn_server::app_api::{
    AppApiErrorCodeV1, OracleClaimAdmissionStatusV1, PhaseResolutionV1, SupervisionActionV1, TaskAttentionV1,
    TaskPhaseV1, classify_error, command_observed_at, contains_text, decision_phase, intent_review_target, selected_option,
    oracle_outcome_phase, phase_for_event, phase_for_state, supervise_task, terminal_phase,
};
use cairn_server::controller::claims::{claims_strictly_canonical, identity_less};
use cairn_server::controller::commands::{
    FrozenMaterialFactsV1, IntentContractFactsV1, OracleExplorationMaterialV1, OracleWorkspaceFactsV1, SirTerminalFactsV1, UserDecisionFactsV1, authorize_intent_admission,
    authorize_oracle_strategy, record_oracle_strategy_completion,
    authorize_sir_episode, cancel_controller_workflow, freeze_controller_workflow, open_oracle_exploration,
    reauthorize_intent_admission, record_admitted_intent, record_intent_admission_blocked,
    record_intent_decision_requests, record_sir_proposal, record_user_intent_decision,
};
use cairn_server::controller::completion::{OracleStrategyRunBindingV1, StrategyCompletionEvidenceV1, SubmissionBindingV1};
use cairn_server::controller::effects::OracleStrategyExecutorV1;
use cairn_server::controller::decide::{ControllerWorkflowDecisionV1, find_prior_command};
use cairn_server::controller::events::{
    ControllerWorkflowError, ControllerWorkflowEventV1, HistoryFaultV1, SirEpisodeAuthorizedPayload,
};
use cairn_server::controller::manager::{
    ControllerWorkflowManagerStatusV1, ManagerTurnV1, OracleExplorationNextV1, OracleExplorationStepV1, plan_controller_turn,
    plan_oracle_exploration,
};
use cairn_server::controller::recover::{RecordedControllerEventV1, recover_controller_workflow};
use cairn_server::controller::state::{ControllerWorkflowNextActionV1, ControllerWorkflowStateV1};
use cairn_server::controller::transition::{is_cancellable, terminal_status_from_counts};
use cairn_server::controller::types::{
    FrozenOracleExplorationAuthorityV1, FrozenSirAuthorityV1, IntentAdmissionBlockReasonV1, IntentContractBodyV1,
    MigrationTerminalStatusV1,
};
use cairn_server::server::error::ServerError;

const TASK: u64 = 64;

fn authority() -> FrozenSirAuthorityV1 {
    FrozenSirAuthorityV1 { task_id: TASK, request: 10, recovery_input: 11, episode_id: 12 }
}

fn facts() -> SirTerminalFactsV1 {
    SirTerminalFactsV1 {
        request_identity: 10,
        request_recovery_input: 11,
        terminal_episode: 12,
        proposal_recovery_input: 11,
        proposal_episode: 12,
        model_matches: true,
    }
}

/// Records the fact a decision owes the stream, as the event store would.
fn commit(history: &mut Vec<RecordedControllerEventV1>, decision: ControllerWorkflowDecisionV1) -> ControllerWorkflowStateV1 {
    match decision {
        ControllerWorkflowDecisionV1::Replayed(_) | ControllerWorkflowDecisionV1::AppendRejected(_) => {
            panic!("expected a new accepted fact")
        },
        ControllerWorkflowDecisionV1::Append(append) => {
            assert_eq!(append.expected_revision, history.len() as u64);
            assert_eq!(append.parent_event_id, history.last().map(|e| e.event_id));
            history.push(RecordedControllerEventV1 {
                event_id: 1000 + history.len() as u64,
                parent_event_id: append.parent_event_id,
                schema_version: 1,
                command_id: append.command_id,
                observed_at: append.observed_at,
                event: append.event,
            });
            append.next
        },
    }
}

/// Exact SIR material for `task`, with the identities the frozen authority names.
fn material(task: u64) -> FrozenMaterialFactsV1 {
    FrozenMaterialFactsV1 {
        input_matches_request: Some(true),
        request_identity: Some(10),
        recovery_input_identity: Some(11),
        input_task: task,
    }
}

fn frozen_history() -> Vec<RecordedControllerEventV1> {
    let mut history = Vec::new();
    let decision = freeze_controller_workflow(TASK, &history, 10, 11, 12, &material(TASK), 1, 100).unwrap();
    commit(&mut history, decision);
    history
}

#[test]
fn freezing_records_the_exact_authority() {
    let history = Vec::new();
    match freeze_controller_workflow(TASK, &history, 10, 11, 12, &material(TASK), 1, 100).unwrap() {
        ControllerWorkflowDecisionV1::Append(append) => {
            assert_eq!(append.parent_event_id, None);
            assert_eq!(append.expected_revision, 0);
            assert_eq!(append.next, ControllerWorkflowStateV1::Frozen(authority()));
        },
        other => panic!("unexpected {:?}", other),
    }
    let foreign_input = FrozenMaterialFactsV1 { input_matches_request: Some(false), ..material(TASK) };
    assert_eq!(
        freeze_controller_workflow(TASK, &history, 10, 11, 12, &foreign_input, 1, 100),
        Err(ControllerWorkflowError::BindingMismatch)
    );
    let drifted_request = FrozenMaterialFactsV1 { request_identity: Some(19), ..material(TASK) };
    assert_eq!(
        freeze_controller_workflow(TASK, &history, 10, 11, 12, &drifted_request, 1, 100),
        Err(ControllerWorkflowError::BindingMismatch)
    );
    let underivable = FrozenMaterialFactsV1 { input_matches_request: None, ..material(TASK) };
    assert_eq!(
        freeze_controller_workflow(TASK, &history, 10, 11, 12, &underivable, 1, 100),
        Err(ControllerWorkflowError::Binding)
    );
}

#[test]
fn freezing_refuses_material_built_for_another_task() {
    let history = Vec::new();
    assert_eq!(
        freeze_controller_workflow(TASK + 1, &history, 10, 11, 12, &material(TASK), 1, 100),
        Err(ControllerWorkflowError::BindingMismatch)
    );
    assert!(history.is_empty());
}

#[test]
fn accepted_commands_recover_to_the_announced_state_and_replay_exactly() {
    let mut history = frozen_history();
    let decision = authorize_sir_episode(TASK, &history, 10, 2, 200).unwrap();
    let next = commit(&mut history, decision);
    assert_eq!(next, ControllerWorkflowStateV1::SirEpisodeAuthorized(authority()));
    assert_eq!(recover_controller_workflow(TASK, &history), Ok(ControllerWorkflowStateV1::SirEpisodeAuthorized(authority())));

    assert_eq!(
        authorize_sir_episode(TASK, &history, 10, 2, 200),
        Ok(ControllerWorkflowDecisionV1::Replayed(ControllerWorkflowStateV1::SirEpisodeAuthorized(authority())))
    );
    assert_eq!(authorize_sir_episode(TASK, &history, 10, 2, 201), Err(ControllerWorkflowError::CommandConflict));
    assert_eq!(authorize_sir_episode(TASK, &history, 99, 2, 200), Err(ControllerWorkflowError::CommandConflict));
    assert_eq!(authorize_sir_episode(TASK, &history, 10, 3, 200), Err(ControllerWorkflowError::InvalidTransition));
    assert_eq!(command_observed_at(&history, 2), Some(200));
    assert_eq!(command_observed_at(&history, 9), None);
    assert_eq!(find_prior_command(&history, 2), Some(1));
}

#[test]
fn the_sir_terminal_must_bind_to_the_frozen_authority() {
    let mut history = frozen_history();
    let decision = authorize_sir_episode(TASK, &history, 10, 2, 200).unwrap();
    commit(&mut history, decision);
    assert_eq!(
        record_sir_proposal(TASK, &history, false, 20, 20, Some(21), facts(), 3, 300),
        Err(ControllerWorkflowError::Binding)
    );
    assert_eq!(
        record_sir_proposal(TASK, &history, true, 20, 19, Some(21), facts(), 3, 300),
        Err(ControllerWorkflowError::BindingMismatch)
    );
    let drifted = SirTerminalFactsV1 { model_matches: false, ..facts() };
    assert_eq!(
        record_sir_proposal(TASK, &history, true, 20, 20, Some(21), drifted, 3, 300),
        Err(ControllerWorkflowError::BindingMismatch)
    );
    let decision = record_sir_proposal(TASK, &history, true, 20, 20, Some(21), facts(), 3, 300).unwrap();
    let next = commit(&mut history, decision);
    assert_eq!(next, ControllerWorkflowStateV1::SirProposed { authority: authority(), terminal: 20, proposal: 21 });
    assert_eq!(
        next.next_action(),
        ControllerWorkflowNextActionV1::DeriveIntentDecisionRequests { authority: authority(), terminal: 20, proposal: 21 }
    );

    assert_eq!(
        record_intent_decision_requests(TASK, &history, 30, 30, 22, 11, 4, 400),
        Err(ControllerWorkflowError::BindingMismatch)
    );
    let decision = record_intent_decision_requests(TASK, &history, 30, 30, 21, 11, 4, 400).unwrap();
    let next = commit(&mut history, decision);
    assert_eq!(
        plan_controller_turn(&next),
        ManagerTurnV1::Report(ControllerWorkflowManagerStatusV1::AwaitingUserIntentDecision { proposal: 21, requests: 30 })
    );
}

#[test]
fn cancelled_tasks_absorb_every_later_command() {
    let mut history = frozen_history();
    let decision = cancel_controller_workflow(TASK, &history, 5, 500).unwrap();
    let next = commit(&mut history, decision);
    assert_eq!(next, ControllerWorkflowStateV1::Cancelled);
    assert!(!is_cancellable(&next));
    assert_eq!(cancel_controller_workflow(TASK, &history, 6, 600), Err(ControllerWorkflowError::InvalidTransition));
    assert_eq!(authorize_sir_episode(TASK, &history, 10, 7, 700), Err(ControllerWorkflowError::InvalidTransition));
    assert_eq!(plan_controller_turn(&next), ManagerTurnV1::Report(ControllerWorkflowManagerStatusV1::Idle));
    assert_eq!(cancel_controller_workflow(TASK, &Vec::new(), 5, 500), Err(ControllerWorkflowError::InvalidTransition));
}

#[test]
fn recovery_rejects_broken_or_foreign_history() {
    let mut history = frozen_history();
    assert_eq!(
        recover_controller_workflow(TASK + 1, &history),
        Err(ControllerWorkflowError::InvalidHistory(HistoryFaultV1::TaskAuthorityChanged))
    );
    history.push(RecordedControllerEventV1 {
        event_id: 2000,
        parent_event_id: Some(7),
        schema_version: 1,
        command_id: 8,
        observed_at: 800,
        event: ControllerWorkflowEventV1::SirEpisodeAuthorized(SirEpisodeAuthorizedPayload { request: 10 }),
    });
    assert_eq!(
        recover_controller_workflow(TASK, &history),
        Err(ControllerWorkflowError::InvalidHistory(HistoryFaultV1::VersionOrParentChanged))
    );

    let mut v2 = frozen_history();
    v2[0].schema_version = 2;
    assert_eq!(
        recover_controller_workflow(TASK, &v2),
        Err(ControllerWorkflowError::InvalidHistory(HistoryFaultV1::VersionOrParentChanged))
    );
    assert_eq!(
        ControllerWorkflowError::InvalidHistory(HistoryFaultV1::VersionOrParentChanged).message(),
        "invalid Controller workflow history: Controller event version or causal parent changed"
    );
    assert_eq!(
        ControllerWorkflowError::BindingMismatch.message(),
        "Controller workflow exact artifact binding changed"
    );
    assert_eq!(recover_controller_workflow(TASK, &Vec::new()), Ok(ControllerWorkflowStateV1::NotFound));
}

#[test]
fn terminal_status_never_promotes_rejected_or_partial_claims() {
    assert_eq!(terminal_status_from_counts(1, 5), MigrationTerminalStatusV1::Rejected);
    assert_eq!(terminal_status_from_counts(0, 2), MigrationTerminalStatusV1::Partial);
    assert_eq!(terminal_status_from_counts(0, 0), MigrationTerminalStatusV1::Admitted);
}

#[test]
fn app_api_phases_follow_the_durable_state() {
    assert_eq!(
        phase_for_state(&ControllerWorkflowStateV1::NotFound),
        Err(ServerError::RegistryEntryNotFound("task".to_string()))
    );
    assert_eq!(
        phase_for_state(&ControllerWorkflowStateV1::Frozen(authority())),
        Ok(PhaseResolutionV1::Resolved { phase: TaskPhaseV1::RecoveringIntent, attention: None })
    );
    assert_eq!(
        phase_for_state(&ControllerWorkflowStateV1::SirProposed { authority: authority(), terminal: 1, proposal: 2 }),
        Ok(PhaseResolutionV1::Resolved {
            phase: TaskPhaseV1::AwaitingIntentReview,
            attention: Some(TaskAttentionV1::IntentReview),
        })
    );
    assert_eq!(
        phase_for_state(&ControllerWorkflowStateV1::Cancelled),
        Ok(PhaseResolutionV1::Resolved { phase: TaskPhaseV1::Cancelled, attention: None })
    );
    assert_eq!(decision_phase(true), TaskPhaseV1::Blocked);
    assert_eq!(decision_phase(false), TaskPhaseV1::AdmittingIntent);
    assert_eq!(
        oracle_outcome_phase(&vec![OracleClaimAdmissionStatusV1::Admitted, OracleClaimAdmissionStatusV1::Partial]),
        TaskPhaseV1::OraclePartial
    );
    assert_eq!(
        oracle_outcome_phase(&vec![OracleClaimAdmissionStatusV1::Partial, OracleClaimAdmissionStatusV1::Rejected]),
        TaskPhaseV1::OracleRejected
    );
    assert_eq!(oracle_outcome_phase(&Vec::new()), TaskPhaseV1::OracleAccepted);
    assert_eq!(phase_for_event(None), TaskPhaseV1::Blocked);
    assert!(terminal_phase(TaskPhaseV1::Cancelled));
    assert!(!terminal_phase(TaskPhaseV1::ExploringOracle));
}

#[test]
fn the_supervisor_attempts_each_fact_once() {
    assert_eq!(supervise_task(Some(4), 4, TaskPhaseV1::RecoveringIntent, None), SupervisionActionV1::Skip);
    assert_eq!(supervise_task(Some(3), 4, TaskPhaseV1::RecoveringIntent, None), SupervisionActionV1::Drive);
    assert_eq!(
        supervise_task(None, 4, TaskPhaseV1::PreparingOracle, Some(TaskAttentionV1::OracleWorkspace)),
        SupervisionActionV1::InitializeOracleWorkspace
    );
    assert_eq!(
        supervise_task(None, 4, TaskPhaseV1::Blocked, Some(TaskAttentionV1::IntentAdmissionReconciliation)),
        SupervisionActionV1::Skip
    );
    assert_eq!(
        supervise_task(None, 4, TaskPhaseV1::AwaitingIntentReview, Some(TaskAttentionV1::IntentReview)),
        SupervisionActionV1::Drive
    );
    assert_eq!(supervise_task(None, 4, TaskPhaseV1::OracleAccepted, None), SupervisionActionV1::Skip);
}

#[test]
fn app_api_errors_are_classified_by_kind_and_message() {
    assert_eq!(classify_error(&ServerError::RegistryEntryNotFound("task".to_string())), AppApiErrorCodeV1::TaskNotFound);
    assert_eq!(
        classify_error(&ServerError::MigrationWorkflow("task is not awaiting review".to_string())),
        AppApiErrorCodeV1::NotReady
    );
    assert_eq!(
        classify_error(&ServerError::MigrationWorkflow("command identity reused".to_string())),
        AppApiErrorCodeV1::Conflict
    );
    assert_eq!(classify_error(&ServerError::MigrationWorkflow("disk".to_string())), AppApiErrorCodeV1::Internal);
    assert_eq!(classify_error(&ServerError::Configuration("bad".to_string())), AppApiErrorCodeV1::InvalidRequest);
    assert_eq!(classify_error(&ServerError::Usage), AppApiErrorCodeV1::Internal);
    assert!(contains_text("abc", ""));
    assert!(contains_text("abcabd", "abd"));
    assert!(!contains_text("ab", "abc"));
}

#[test]
fn oracle_exploration_runs_the_first_eligible_strategy() {
    let authority = FrozenOracleExplorationAuthorityV1 {
        task_id: TASK,
        admitted_intent_outcome: 1,
        admitted_intent: 2,
        recovery_input: 3,
        workspace: 4,
        coverage_policy: 5,
        strategy_catalog: 6,
        claims: 7,
        ledger: 8,
        ledger_revision: 9,
    };
    assert_eq!(
        plan_oracle_exploration(authority, OracleExplorationNextV1::RunStrategy { item: 40, eligible_strategies: vec![31, 30] }),
        Ok(OracleExplorationStepV1::StartStrategy { item: 40, strategy: 31 })
    );
    assert_eq!(
        plan_oracle_exploration(authority, OracleExplorationNextV1::RunStrategy { item: 40, eligible_strategies: Vec::new() }),
        Err(ServerError::MigrationWorkflow("Oracle strategy set is empty".to_string()))
    );
    assert_eq!(
        plan_oracle_exploration(authority, OracleExplorationNextV1::AuthorizeExperiment { request: 77 }),
        Ok(OracleExplorationStepV1::Report(ControllerWorkflowManagerStatusV1::AwaitingOracleExperiment { ledger: 8, request: 77 }))
    );
    assert_eq!(
        plan_oracle_exploration(authority, OracleExplorationNextV1::AwaitObservation),
        Ok(OracleExplorationStepV1::Report(ControllerWorkflowManagerStatusV1::OracleExplorationReady { authority }))
    );
    assert_eq!(plan_oracle_exploration(authority, OracleExplorationNextV1::FreezePortfolio), Ok(OracleExplorationStepV1::FreezePortfolio));
    assert_eq!(
        plan_oracle_exploration(authority, OracleExplorationNextV1::BudgetExhausted),
        Ok(OracleExplorationStepV1::Report(ControllerWorkflowManagerStatusV1::OracleExplorationBudgetExhausted { ledger: 8 }))
    );
}

#[test]
fn intent_review_needs_a_sir_proposal() {
    assert_eq!(
        intent_review_target(&ControllerWorkflowStateV1::SirProposed { authority: authority(), terminal: 1, proposal: 2 }),
        Ok((2, None))
    );
    assert_eq!(
        intent_review_target(&ControllerWorkflowStateV1::AwaitingUserIntentDecision {
            authority: authority(),
            terminal: 1,
            proposal: 2,
            requests: 3,
        }),
        Ok((2, Some(3)))
    );
    assert_eq!(
        intent_review_target(&ControllerWorkflowStateV1::Frozen(authority())),
        Err(ServerError::MigrationWorkflow("task has no SIR proposal ready for intent review".to_string()))
    );
}

#[test]
fn only_an_offered_hypothesis_can_be_selected() {
    let options = vec!["h-serial".to_string(), "h-tiled".to_string(), "h-tiled".to_string()];
    assert_eq!(selected_option(&options, &"h-tiled".to_string()), Ok(1));
    assert_eq!(selected_option(&options, &"h-serial".to_string()), Ok(0));
    assert_eq!(
        selected_option(&options, &"h-vector".to_string()),
        Err(ServerError::MigrationWorkflow("selected hypothesis is not an option for the exact request".to_string()))
    );
    assert_eq!(
        selected_option(&Vec::new(), &"h-serial".to_string()),
        Err(ServerError::MigrationWorkflow("selected hypothesis is not an option for the exact request".to_string()))
    );
}

#[test]
fn exploration_claims_must_strictly_ascend() {
    let ids = |words: &[&str]| words.iter().map(|w| w.as_bytes().to_vec()).collect::<Vec<Vec<u8>>>();
    assert!(claims_strictly_canonical(&ids(&["claim-a", "claim-b", "claim-ba"])));
    assert!(claims_strictly_canonical(&ids(&["only"])));
    assert!(!claims_strictly_canonical(&ids(&[])));
    assert!(!claims_strictly_canonical(&ids(&["claim-b", "claim-a"])));
    assert!(!claims_strictly_canonical(&ids(&["claim-a", "claim-a"])));
    assert!(identity_less(&b"ab".to_vec(), &b"abc".to_vec()));
    assert!(!identity_less(&b"abc".to_vec(), &b"ab".to_vec()));
    assert!(identity_less(&b"Z".to_vec(), &b"a".to_vec()));
}

fn replayed(state: ControllerWorkflowStateV1) -> Result<ControllerWorkflowDecisionV1, ControllerWorkflowError> {
    Ok(ControllerWorkflowDecisionV1::Replayed(state))
}

#[test]
fn durable_intent_path_opens_oracle_and_rejects_authority_drift() {
    let mut history: Vec<RecordedControllerEventV1> = Vec::new();
    assert_eq!(
        freeze_controller_workflow(TASK + 1, &history, 10, 11, 12, &material(TASK), 99, 1),
        Err(ControllerWorkflowError::BindingMismatch)
    );

    let decision = freeze_controller_workflow(TASK, &history, 10, 11, 12, &material(TASK), 1, 1).unwrap();
    let state = commit(&mut history, decision);
    let ControllerWorkflowNextActionV1::AuthorizeSirEpisode(sir) = state.next_action() else {
        panic!("expected durable start authorization");
    };
    let decision = authorize_sir_episode(TASK, &history, sir.request, 2, 2).unwrap();
    let state = commit(&mut history, decision);
    assert!(matches!(state.next_action(), ControllerWorkflowNextActionV1::RunSirEpisode(_)));

    let drifted = SirTerminalFactsV1 { model_matches: false, ..facts() };
    assert_eq!(
        record_sir_proposal(TASK, &history, true, 20, 20, Some(21), drifted, 98, 3),
        Err(ControllerWorkflowError::BindingMismatch)
    );
    let decision = record_sir_proposal(TASK, &history, true, 20, 20, Some(21), facts(), 3, 3).unwrap();
    let state = commit(&mut history, decision);
    assert!(matches!(state.next_action(), ControllerWorkflowNextActionV1::DeriveIntentDecisionRequests { .. }));

    let decision = record_intent_decision_requests(TASK, &history, 30, 30, 21, 11, 4, 4).unwrap();
    let state = commit(&mut history, decision);
    assert_eq!(state.next_action(), ControllerWorkflowNextActionV1::AwaitUserIntentDecision { proposal: 21, requests: 30 });
    assert_eq!(recover_controller_workflow(TASK, &history), Ok(state.copy()));
    assert_eq!(record_intent_decision_requests(TASK, &history, 30, 30, 21, 11, 4, 4), replayed(state.copy()));
    assert_eq!(
        record_intent_decision_requests(TASK, &history, 30, 30, 21, 11, 4, 5),
        Err(ControllerWorkflowError::CommandConflict)
    );

    let user_facts = UserDecisionFactsV1 {
        batch_identity: 30,
        batch_proposal: 21,
        batch_recovery_input: 11,
        batch_contains_request: true,
        request_proposal: 21,
        request_recovery_input: 11,
        grant_task: TASK,
        decision_request: 40,
        decision_grant: 41,
    };
    let cross_task = UserDecisionFactsV1 { grant_task: TASK + 1, decision_grant: 43, ..user_facts };
    assert_eq!(
        record_user_intent_decision(TASK, &history, 40, 43, 44, true, cross_task, 97, 5),
        Err(ControllerWorkflowError::BindingMismatch)
    );
    let decision = record_user_intent_decision(TASK, &history, 40, 41, 42, true, user_facts, 5, 5).unwrap();
    let state = commit(&mut history, decision);
    assert_eq!(state.next_action(), ControllerWorkflowNextActionV1::AuthorizeIntentAdmission { decision: 42 });
    assert_eq!(recover_controller_workflow(TASK, &history), Ok(state.copy()));

    let decision = authorize_intent_admission(TASK, &history, 42, 50, 51, 6, 6).unwrap();
    let state = commit(&mut history, decision);
    assert_eq!(
        state.next_action(),
        ControllerWorkflowNextActionV1::RunIntentAdmission { decision: 42, executable: 50, restricted_store: 51 }
    );
    assert_eq!(authorize_intent_admission(TASK, &history, 42, 50, 51, 6, 6), replayed(state.copy()));
    assert_eq!(
        reauthorize_intent_admission(TASK, &history, 42, 52, 51, 96, 6),
        Err(ControllerWorkflowError::InvalidTransition)
    );
    let decision =
        record_intent_admission_blocked(TASK, &history, 42, 50, 51, IntentAdmissionBlockReasonV1::InvocationDrift, 7, 6).unwrap();
    let state = commit(&mut history, decision);
    assert_eq!(state.next_action(), ControllerWorkflowNextActionV1::NoAction);
    let decision = reauthorize_intent_admission(TASK, &history, 42, 52, 51, 8, 6).unwrap();
    let state = commit(&mut history, decision);
    assert_eq!(
        state.next_action(),
        ControllerWorkflowNextActionV1::RunIntentAdmission { decision: 42, executable: 52, restricted_store: 51 }
    );

    let body = IntentContractBodyV1 { identity: 70, task_id: TASK, oracle_claims: 80 };
    let contract_facts =
        IntentContractFactsV1 { task_id: TASK, recovery_input: 11, proposal: 21, request: 40, authority_grant: 41, user_decision: 42 };
    assert_eq!(
        record_admitted_intent(TASK, &history, 60, 61, 70, body, contract_facts, 95, 7),
        Err(ControllerWorkflowError::BindingMismatch)
    );
    let decision = record_admitted_intent(TASK, &history, 60, 60, 70, body, contract_facts, 9, 7).unwrap();
    let state = commit(&mut history, decision);
    assert_eq!(
        state.next_action(),
        ControllerWorkflowNextActionV1::AwaitOracleExplorationWorkspace { outcome: 60, contract: 70 }
    );
    assert_eq!(recover_controller_workflow(TASK, &history), Ok(state.copy()));

    let exploration = OracleExplorationMaterialV1 {
        recovery_input: 11,
        workspace: 90,
        coverage_policy: 91,
        strategy_catalog: 92,
        ledger: 93,
        ledger_revision: 1,
    };
    let workspace = OracleWorkspaceFactsV1 {
        recovery_input_task: TASK,
        workspace_task: TASK,
        workspace_admitted_intent: 70,
        workspace_sir_input: 11,
        sir_task_bundle_matches: true,
        workspace_coverage_policy: 91,
        workspace_strategy_catalog: 92,
        ledger_opened: Some(true),
    };
    let decision = open_oracle_exploration(TASK, &history, exploration, workspace, 10, 8).unwrap();
    let state = commit(&mut history, decision);
    let ControllerWorkflowNextActionV1::RunOracleExploration(oracle) = state.next_action() else {
        panic!("expected Oracle Exploration strategy consumer");
    };
    assert_eq!(oracle.task_id, TASK);
    assert_eq!(oracle.workspace, 90);
    assert_eq!(oracle.ledger, 93);
    assert_eq!(oracle.claims, 80);
    assert_eq!(recover_controller_workflow(TASK, &history), Ok(state));
}

/// The durable path up to a recorded admitted intent, committed fact by fact.
fn admitted_intent_history() -> Vec<RecordedControllerEventV1> {
    let mut history: Vec<RecordedControllerEventV1> = Vec::new();
    let decision = freeze_controller_workflow(TASK, &history, 10, 11, 12, &material(TASK), 1, 1).unwrap();
    commit(&mut history, decision);
    let decision = authorize_sir_episode(TASK, &history, 10, 2, 2).unwrap();
    commit(&mut history, decision);
    let decision = record_sir_proposal(TASK, &history, true, 20, 20, Some(21), facts(), 3, 3).unwrap();
    commit(&mut history, decision);
    let decision = record_intent_decision_requests(TASK, &history, 30, 30, 21, 11, 4, 4).unwrap();
    commit(&mut history, decision);
    let user_facts = UserDecisionFactsV1 {
        batch_identity: 30,
        batch_proposal: 21,
        batch_recovery_input: 11,
        batch_contains_request: true,
        request_proposal: 21,
        request_recovery_input: 11,
        grant_task: TASK,
        decision_request: 40,
        decision_grant: 41,
    };
    let decision = record_user_intent_decision(TASK, &history, 40, 41, 42, true, user_facts, 5, 5).unwrap();
    commit(&mut history, decision);
    let decision = authorize_intent_admission(TASK, &history, 42, 50, 51, 6, 6).unwrap();
    commit(&mut history, decision);
    let body = IntentContractBodyV1 { identity: 70, task_id: TASK, oracle_claims: 80 };
    let contract_facts =
        IntentContractFactsV1 { task_id: TASK, recovery_input: 11, proposal: 21, request: 40, authority_grant: 41, user_decision: 42 };
    let decision = record_admitted_intent(TASK, &history, 60, 60, 70, body, contract_facts, 9, 7).unwrap();
    commit(&mut history, decision);
    history
}

fn exploration_authority() -> FrozenOracleExplorationAuthorityV1 {
    FrozenOracleExplorationAuthorityV1 {
        task_id: TASK,
        admitted_intent_outcome: 60,
        admitted_intent: 70,
        recovery_input: 11,
        workspace: 90,
        coverage_policy: 91,
        strategy_catalog: 92,
        claims: 80,
        ledger: 93,
        ledger_revision: 1,
    }
}

fn exploration_material() -> OracleExplorationMaterialV1 {
    OracleExplorationMaterialV1 {
        recovery_input: 11,
        workspace: 90,
        coverage_policy: 91,
        strategy_catalog: 92,
        ledger: 93,
        ledger_revision: 1,
    }
}

fn exploration_workspace() -> OracleWorkspaceFactsV1 {
    OracleWorkspaceFactsV1 {
        recovery_input_task: TASK,
        workspace_task: TASK,
        workspace_admitted_intent: 70,
        workspace_sir_input: 11,
        sir_task_bundle_matches: true,
        workspace_coverage_policy: 91,
        workspace_strategy_catalog: 92,
        ledger_opened: Some(true),
    }
}

/// The admitted intent path with its Oracle Exploration opened.
fn opened_exploration_history() -> (Vec<RecordedControllerEventV1>, FrozenOracleExplorationAuthorityV1) {
    let mut history = admitted_intent_history();
    let exploration = exploration_authority();
    let decision = open_oracle_exploration(TASK, &history, exploration_material(), exploration_workspace(), 10, 8).unwrap();
    commit(&mut history, decision);
    (history, exploration)
}

#[test]
fn a_presented_authority_that_drifted_is_refused_before_any_fact() {
    let history = frozen_history();
    assert_eq!(authorize_sir_episode(TASK, &history, 99, 2, 200), Err(ControllerWorkflowError::BindingMismatch));
    assert_eq!(recover_controller_workflow(TASK, &history), Ok(ControllerWorkflowStateV1::Frozen(authority())));
}

#[test]
fn a_fact_the_reducer_refuses_is_appended_and_fails_recovery() {
    let history = admitted_intent_history();
    let reopened = OracleExplorationMaterialV1 { ledger_revision: 2, ..exploration_material() };
    match open_oracle_exploration(TASK, &history, reopened, exploration_workspace(), 10, 8) {
        Ok(ControllerWorkflowDecisionV1::AppendRejected(rejected)) => {
            assert_eq!(rejected.expected_revision, history.len() as u64);
            assert_eq!(rejected.parent_event_id, history.last().map(|e| e.event_id));
            assert_eq!(
                rejected.error,
                ControllerWorkflowError::InvalidHistory(HistoryFaultV1::OracleExplorationChanged)
            );
            let mut after = admitted_intent_history();
            after.push(RecordedControllerEventV1 {
                event_id: 5000,
                parent_event_id: rejected.parent_event_id,
                schema_version: 1,
                command_id: rejected.command_id,
                observed_at: rejected.observed_at,
                event: rejected.event,
            });
            assert_eq!(recover_controller_workflow(TASK, &after), Err(rejected.error));
        },
        other => panic!("unexpected {:?}", other),
    }
}

#[test]
fn strategy_completions_bind_to_the_authorized_run() {
    let (mut history, exploration) = opened_exploration_history();
    let decision = authorize_oracle_strategy(TASK, &history, 90, 92, 93, 1, 100, 90, Some(94), 2, 11, 9).unwrap();
    let state = commit(&mut history, decision);
    let ControllerWorkflowNextActionV1::RunOracleStrategy(strategy) = state.next_action() else {
        panic!("expected the authorized strategy run");
    };
    assert_eq!(strategy.run, 100);
    assert_eq!(strategy.previous_ledger, 93);
    assert_eq!(strategy.exploration.ledger, 94);

    let run = OracleStrategyRunBindingV1 {
        identity: Some(100),
        item: 7,
        executor: OracleStrategyExecutorV1::Deterministic { implementation: 60 },
    };
    let foreign = StrategyCompletionEvidenceV1::Deterministic {
        implementation: 60,
        submission: SubmissionBindingV1 { run: 101, item: 7 },
    };
    assert_eq!(
        record_oracle_strategy_completion(TASK, &history, 90, 94, 2, 100, &foreign, &run, Some(95), 3, 12, 10),
        Err(ControllerWorkflowError::BindingMismatch)
    );
    let unnamed = OracleStrategyRunBindingV1 { identity: None, ..run };
    let own = StrategyCompletionEvidenceV1::Deterministic {
        implementation: 60,
        submission: SubmissionBindingV1 { run: 100, item: 7 },
    };
    assert_eq!(
        record_oracle_strategy_completion(TASK, &history, 90, 94, 2, 100, &own, &unnamed, Some(95), 3, 12, 10),
        Err(ControllerWorkflowError::Binding)
    );
    let decision = record_oracle_strategy_completion(TASK, &history, 90, 94, 2, 100, &own, &run, Some(95), 3, 12, 10).unwrap();
    let state = commit(&mut history, decision);
    let ControllerWorkflowNextActionV1::RunOracleExploration(next) = state.next_action() else {
        panic!("expected the exploration to continue on the advanced ledger");
    };
    assert_eq!(next, FrozenOracleExplorationAuthorityV1 { ledger: 95, ledger_revision: 3, ..exploration });
    assert_eq!(recover_controller_workflow(TASK, &history), Ok(state.copy()));
    assert_eq!(
        record_oracle_strategy_completion(TASK, &history, 90, 94, 2, 100, &own, &run, Some(95), 3, 12, 10),
        replayed(state)
    );
}

#[test]
fn an_invalid_history_is_reported_before_terminal_and_batch_bindings() {
    let mut history = frozen_history();
    history[0].schema_version = 2;
    let invalid = Err(ControllerWorkflowError::InvalidHistory(HistoryFaultV1::VersionOrParentChanged));
    assert_eq!(record_sir_proposal(TASK, &history, false, 20, 20, Some(21), facts(), 3, 300), invalid);
    assert_eq!(record_sir_proposal(TASK, &history, true, 20, 19, Some(21), facts(), 3, 300), invalid);
    assert_eq!(record_sir_proposal(TASK, &history, true, 20, 20, None, facts(), 3, 300), invalid);
    assert_eq!(record_intent_decision_requests(TASK, &history, 30, 31, 21, 11, 4, 400), invalid);
    let valid = frozen_history();
    assert_eq!(
        record_intent_decision_requests(TASK, &valid, 30, 31, 21, 11, 4, 400),
        Err(ControllerWorkflowError::BindingMismatch)
    );
}

#[test]
fn exploration_material_is_bound_before_the_opening_is_replayed() {
    let (history, exploration) = opened_exploration_history();
    let state = ControllerWorkflowStateV1::OracleExplorationOpened(exploration);
    assert_eq!(
        open_oracle_exploration(TASK, &history, exploration_material(), exploration_workspace(), 10, 8),
        Ok(ControllerWorkflowDecisionV1::Replayed(state))
    );
    let foreign = OracleWorkspaceFactsV1 { workspace_task: TASK + 1, ..exploration_workspace() };
    assert_eq!(
        open_oracle_exploration(TASK, &history, exploration_material(), foreign, 10, 8),
        Err(ControllerWorkflowError::BindingMismatch)
    );
    assert_eq!(
        open_oracle_exploration(TASK, &history, exploration_material(), exploration_workspace(), 11, 8),
        Err(ControllerWorkflowError::InvalidTransition)
    );
    assert_eq!(
        open_oracle_exploration(TASK, &frozen_history(), exploration_material(), exploration_workspace(), 10, 8),
        Err(ControllerWorkflowError::InvalidTransition)
    );
}
