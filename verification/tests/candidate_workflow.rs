use cairn_server::server::error::ServerError;
use cairn_server::supervisor::candidate_manager::ProposalHostProcessBlockedV1;
use cairn_server::supervisor::candidate_workflow::{
    AssignmentExecutionTerminalV1, CandidateEpisodeKindV1, CandidateEpisodeRequestV1, CandidateEpisodeRoleV1,
    CandidateNativeBuildDispatchV1, CandidateNativeBuildScheduleV1, CandidateNativeDiagnosticV1,
    CandidateNativePublicationV1, CandidateTurnV1, CandidateWorkflowBlockedV1, CandidateWorkflowManagerStatusV1,
    CandidateWorkflowNextActionV1, CandidateWorkflowWaitingV1, ControllerSchedulingOutcomeV1, EpisodeStepV1,
    ExecutionAssignmentStateV1, ManagerLoopStepV1, NativeBuildBindingV1, NativeDiagnosticDomainV1, ReceiptFoldV1,
    ReconcileStepV1, RepairParentV1, ScheduleStepV1, ScheduledAssignmentPhase, check_archived_contract,
    check_archived_invocation, check_contract_binding, check_rematerialized_binding, controller_schedule_ids,
    manager_loop_step, native_diagnostic, plan_candidate_episode_role, plan_candidate_turn, plan_episode_step,
    plan_receipt_fold, plan_reconcile_step, plan_schedule_step,
};

fn workflow_error(message: &str) -> ServerError {
    ServerError::MigrationWorkflow(message.to_string())
}

fn schedule() -> CandidateNativeBuildScheduleV1 {
    CandidateNativeBuildScheduleV1 {
        attempt_id: 1,
        placement_id: 2,
        reservation_id: 3,
        assignment_id: 4,
        lease_id: 5,
        offer_message_id: 6,
        start_message_id: 7,
        authorize_attempt_command: 8,
        reserve_placement_command: 9,
        grant_assignment_command: 10,
        enqueue_offer_command: 11,
    }
}

fn dispatch(publication: CandidateNativePublicationV1) -> CandidateNativeBuildDispatchV1 {
    CandidateNativeBuildDispatchV1 { publication, job_id: 20, input_bundle: 21, environment: 22, contract: 23, schedule: schedule() }
}

fn waiting(phase: ScheduledAssignmentPhase) -> CandidateWorkflowManagerStatusV1 {
    CandidateWorkflowManagerStatusV1::Waiting(CandidateWorkflowWaitingV1::Worker { attempt_id: 1, assignment_id: 4, phase })
}

fn blocked(reason: CandidateWorkflowBlockedV1) -> CandidateWorkflowManagerStatusV1 {
    CandidateWorkflowManagerStatusV1::Blocked(reason)
}

#[test]
fn the_scheduler_gets_exactly_the_dispatch_identities() {
    let ids = controller_schedule_ids(schedule());
    assert_eq!((ids.attempt_id, ids.placement_id, ids.reservation_id, ids.assignment_id), (1, 2, 3, 4));
    assert_eq!((ids.lease_id, ids.offer_message_id, ids.start_message_id), (5, 6, 7));
    assert_eq!(
        (ids.commands.authorize_attempt, ids.commands.reserve_placement, ids.commands.grant_assignment, ids.commands.enqueue_offer),
        (8, 9, 10, 11)
    );
}

#[test]
fn scheduling_outcomes_wait_block_or_follow_up() {
    let d = dispatch(CandidateNativePublicationV1::Revision(30));
    assert_eq!(
        plan_schedule_step(&d, ControllerSchedulingOutcomeV1::NoCandidate { placement_id: 2 }),
        ScheduleStepV1::Report(blocked(CandidateWorkflowBlockedV1::NoCandidate { placement_id: 2 }))
    );
    for phase in [ScheduledAssignmentPhase::OfferPending, ScheduledAssignmentPhase::Accepted, ScheduledAssignmentPhase::Running] {
        assert_eq!(plan_schedule_step(&d, ControllerSchedulingOutcomeV1::Scheduled { phase }), ScheduleStepV1::Report(waiting(phase)));
    }
    assert_eq!(
        plan_schedule_step(&d, ControllerSchedulingOutcomeV1::Scheduled { phase: ScheduledAssignmentPhase::ExpiredBeforeStart }),
        ScheduleStepV1::Report(blocked(CandidateWorkflowBlockedV1::ExpiredBeforeStart { attempt_id: 1 }))
    );
    assert_eq!(
        plan_schedule_step(&d, ControllerSchedulingOutcomeV1::Scheduled { phase: ScheduledAssignmentPhase::ReconciliationRequired }),
        ScheduleStepV1::RequireReconciliation
    );
    assert_eq!(
        plan_schedule_step(&d, ControllerSchedulingOutcomeV1::Scheduled { phase: ScheduledAssignmentPhase::Terminal }),
        ScheduleStepV1::Reconcile
    );
}

#[test]
fn reconciliation_follows_the_durable_execution() {
    let d = dispatch(CandidateNativePublicationV1::Revision(30));
    assert_eq!(
        plan_reconcile_step(&d, ExecutionAssignmentStateV1::Leased),
        Ok(ReconcileStepV1::Report(waiting(ScheduledAssignmentPhase::OfferPending)))
    );
    assert_eq!(
        plan_reconcile_step(&d, ExecutionAssignmentStateV1::Running),
        Ok(ReconcileStepV1::Report(waiting(ScheduledAssignmentPhase::Running)))
    );
    assert_eq!(
        plan_reconcile_step(&d, ExecutionAssignmentStateV1::ReconciliationRequired),
        Ok(ReconcileStepV1::Report(blocked(CandidateWorkflowBlockedV1::NativeBuildReconciliationRequired { attempt_id: 1 })))
    );
    assert_eq!(
        plan_reconcile_step(&d, ExecutionAssignmentStateV1::ExecutionTerminal(AssignmentExecutionTerminalV1::Completed { receipt_id: 44 })),
        Ok(ReconcileStepV1::FoldReceipt { receipt_id: 44 })
    );
    assert_eq!(
        plan_reconcile_step(&d, ExecutionAssignmentStateV1::ExecutionTerminal(AssignmentExecutionTerminalV1::Ambiguous)),
        Ok(ReconcileStepV1::Report(blocked(CandidateWorkflowBlockedV1::ExecutionAmbiguous { attempt_id: 1 })))
    );
    assert_eq!(
        plan_reconcile_step(&d, ExecutionAssignmentStateV1::NotFound),
        Err(workflow_error("Candidate workflow dispatch names no durable execution assignment"))
    );
}

#[test]
fn subject_failures_are_diagnosed_in_the_next_native_domain() {
    let revision = dispatch(CandidateNativePublicationV1::Revision(30));
    let repair = dispatch(CandidateNativePublicationV1::NativeRepair(31));
    assert_eq!(plan_receipt_fold(false, false, &revision), Ok(ReceiptFoldV1::RecordTerminal));
    assert_eq!(
        plan_receipt_fold(true, true, &revision),
        Ok(ReceiptFoldV1::RecordSubjectFailure { domain: NativeDiagnosticDomainV1::NativeFollowup })
    );
    assert_eq!(
        plan_receipt_fold(true, true, &repair),
        Ok(ReceiptFoldV1::RecordSubjectFailure { domain: NativeDiagnosticDomainV1::NativeRepair })
    );
    assert_eq!(
        plan_receipt_fold(true, false, &repair),
        Err(workflow_error("native-build receipt is not bound to an active workflow dispatch"))
    );
    assert_eq!(native_diagnostic(NativeDiagnosticDomainV1::NativeRepair, 45), CandidateNativeDiagnosticV1::NativeRepair(45));
}

#[test]
fn dispatch_bindings_are_checked_at_every_hand_off() {
    let d = dispatch(CandidateNativePublicationV1::Revision(30));
    let same = NativeBuildBindingV1 { input_bundle: 21, environment: 22, contract: 23 };
    assert_eq!(check_rematerialized_binding(same, &d), Ok(()));
    assert_eq!(
        check_rematerialized_binding(NativeBuildBindingV1 { contract: 24, ..same }, &d),
        Err(workflow_error("native-build receipt material changed the durable workflow dispatch"))
    );
    assert_eq!(check_contract_binding(true, 20, 21, 22, &d), Ok(()));
    assert_eq!(
        check_contract_binding(false, 20, 21, 22, &d),
        Err(workflow_error("native-build dispatch changed its archived contract binding"))
    );
    assert_eq!(
        check_contract_binding(true, 20, 21, 25, &d),
        Err(workflow_error("native-build dispatch changed its archived contract binding"))
    );
    assert_eq!(check_archived_contract(23, 23), Ok(()));
    assert_eq!(check_archived_contract(22, 23), Err(workflow_error("native-build contract identity changed during archival")));
    assert_eq!(check_archived_invocation(3, 3), Ok(()));
    assert_eq!(check_archived_invocation(3, 4), Err(workflow_error("Proposal Host invocation identity changed during archival")));
}

#[test]
fn episode_requests_take_the_role_of_their_kind() {
    assert_eq!(
        plan_candidate_episode_role(
            7,
            7,
            CandidateEpisodeKindV1::NativeFollowup,
            CandidateNativePublicationV1::Revision(30),
            CandidateNativeDiagnosticV1::NativeFollowup(40)
        ),
        Ok(CandidateEpisodeRoleV1::NativeFollowup { previous_revision: 30, diagnostic: 40 })
    );
    assert_eq!(
        plan_candidate_episode_role(
            7,
            7,
            CandidateEpisodeKindV1::NativeRepair,
            CandidateNativePublicationV1::NativeRepair(31),
            CandidateNativeDiagnosticV1::NativeRepair(41)
        ),
        Ok(CandidateEpisodeRoleV1::NativeRepair { parent: RepairParentV1::Repair(31), diagnostic: 41 })
    );
    assert_eq!(
        plan_candidate_episode_role(
            7,
            7,
            CandidateEpisodeKindV1::NativeRepair,
            CandidateNativePublicationV1::NativeFollowup(32),
            CandidateNativeDiagnosticV1::NativeRepair(41)
        ),
        Ok(CandidateEpisodeRoleV1::NativeRepair { parent: RepairParentV1::Followup(32), diagnostic: 41 })
    );
    assert_eq!(
        plan_candidate_episode_role(
            7,
            7,
            CandidateEpisodeKindV1::NativeRepair,
            CandidateNativePublicationV1::Revision(30),
            CandidateNativeDiagnosticV1::NativeRepair(41)
        ),
        Err(workflow_error("native repair request has a non-native parent"))
    );
    assert_eq!(
        plan_candidate_episode_role(
            7,
            7,
            CandidateEpisodeKindV1::NativeFollowup,
            CandidateNativePublicationV1::Revision(30),
            CandidateNativeDiagnosticV1::NativeRepair(41)
        ),
        Err(workflow_error("Candidate workflow request changed role-specific artifact domains"))
    );
    assert_eq!(
        plan_candidate_episode_role(
            7,
            7,
            CandidateEpisodeKindV1::Other,
            CandidateNativePublicationV1::Revision(30),
            CandidateNativeDiagnosticV1::NativeFollowup(40)
        ),
        Err(workflow_error("Candidate workflow request changed role-specific artifact domains"))
    );
    assert_eq!(
        plan_candidate_episode_role(
            7,
            8,
            CandidateEpisodeKindV1::NativeFollowup,
            CandidateNativePublicationV1::Revision(30),
            CandidateNativeDiagnosticV1::NativeFollowup(40)
        ),
        Err(workflow_error("Proposal Host runtime changed the workflow episode identity"))
    );
}

#[test]
fn candidate_turns_follow_the_workflow_action() {
    assert_eq!(
        plan_candidate_turn(CandidateWorkflowNextActionV1::NoAction),
        Err(workflow_error("configured Candidate workflow does not exist"))
    );
    assert_eq!(
        plan_candidate_turn(CandidateWorkflowNextActionV1::Terminal(90)),
        Ok(CandidateTurnV1::Report(CandidateWorkflowManagerStatusV1::Terminal(90)))
    );
    let d = dispatch(CandidateNativePublicationV1::NativeFollowup(30));
    assert_eq!(plan_candidate_turn(CandidateWorkflowNextActionV1::ReconcileNativeBuild(d)), Ok(CandidateTurnV1::ReconcileNativeBuild(d)));
    let request = CandidateEpisodeRequestV1 {
        episode_id: 7,
        invocation: 8,
        kind: CandidateEpisodeKindV1::NativeFollowup,
        parent: CandidateNativePublicationV1::Revision(30),
        diagnostic: CandidateNativeDiagnosticV1::NativeFollowup(40),
    };
    assert_eq!(
        plan_candidate_turn(CandidateWorkflowNextActionV1::RequestCandidateEpisode(request)),
        Ok(CandidateTurnV1::RunCandidateEpisode(request))
    );
    assert_eq!(plan_episode_step(7, Ok(())), EpisodeStepV1::RecordTerminal);
    assert_eq!(
        plan_episode_step(7, Err(ProposalHostProcessBlockedV1::InvalidTerminal)),
        EpisodeStepV1::Report(blocked(CandidateWorkflowBlockedV1::ProposalHost {
            episode_id: 7,
            reason: ProposalHostProcessBlockedV1::InvalidTerminal,
        }))
    );
    assert_eq!(manager_loop_step(&CandidateWorkflowManagerStatusV1::Advanced), ManagerLoopStepV1::Continue);
    assert_eq!(manager_loop_step(&waiting(ScheduledAssignmentPhase::Running)), ManagerLoopStepV1::Sleep);
    assert_eq!(manager_loop_step(&CandidateWorkflowManagerStatusV1::Terminal(90)), ManagerLoopStepV1::Stop);
    assert_eq!(
        manager_loop_step(&blocked(CandidateWorkflowBlockedV1::ExecutionNotStarted { attempt_id: 1 })),
        ManagerLoopStepV1::Stop
    );
}

#[test]
fn a_dispatch_without_an_eligible_worker_stays_blocked_on_every_turn() {
    let d = dispatch(CandidateNativePublicationV1::Revision(30));
    for _ in 0..4 {
        let turn = plan_candidate_turn(CandidateWorkflowNextActionV1::ScheduleNativeBuild(d));
        let scheduled = match turn {
            Ok(CandidateTurnV1::ScheduleNativeBuild(scheduled)) => scheduled,
            other => panic!("unexpected {:?}", other),
        };
        assert_eq!(scheduled, d);
        let step = plan_schedule_step(
            &scheduled,
            ControllerSchedulingOutcomeV1::NoCandidate { placement_id: scheduled.schedule.placement_id },
        );
        let status = blocked(CandidateWorkflowBlockedV1::NoCandidate { placement_id: 2 });
        assert_eq!(step, ScheduleStepV1::Report(status));
        assert_eq!(manager_loop_step(&blocked(CandidateWorkflowBlockedV1::NoCandidate { placement_id: 2 })), ManagerLoopStepV1::Stop);
    }
}
