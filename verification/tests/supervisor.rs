use cairn_server::paths::resolve;
use cairn_server::server::error::ServerError;
use cairn_server::supervisor::candidate_manager::{
    CandidateWorkflowManagerConfigV1, CandidateWorkflowPollIntervalMillis, HostRunV1, ProposalHostProcessBlockedV1,
    ProposalHostProcessConfigV1, classify_host_run,
    ProposalHostProcessTimeoutMillis, ProposalHostStderrByteLimit, ProposalHostStdoutByteLimit, TransitionOutcomeV1,
    manager_error, transition_or_recover,
};
use cairn_server::supervisor::intent_admission::{
    AdmissionRunV1, IntentAdmissionProcessBlockedV1, IntentAdmissionProcessConfigV1,
    IntentAdmissionProcessTimeoutMillis, IntentAdmissionStderrByteLimit, IntentAdmissionStdoutByteLimit,
    IntentAdmissionProcessFailure, check_authorized_operation, classify_admission_run,
};
use cairn_server::supervisor::model_policy::{
    ModelSelectionV1, ResolvedRuntimeModelV1, check_proposal_host_model, check_proposal_step_model, model_policy,
};
use cairn_server::supervisor::proposal_host::{self, HostProcessFactsV1};

fn host() -> ProposalHostProcessConfigV1 {
    ProposalHostProcessConfigV1 {
        executable: "bin/proposal-host".to_string(),
        state_root: "/var/lib/cairn/host".to_string(),
        resolved_runtime_model: "model.json".to_string(),
        process_timeout_ms: ProposalHostProcessTimeoutMillis::new(30_000).unwrap(),
        stdout_byte_limit: ProposalHostStdoutByteLimit::new(100).unwrap(),
        stderr_byte_limit: ProposalHostStderrByteLimit::new(10).unwrap(),
    }
}

fn manager(schema_version: u32) -> CandidateWorkflowManagerConfigV1 {
    CandidateWorkflowManagerConfigV1 {
        schema_version,
        task_id: 7,
        proposal_host: host(),
        poll_interval_ms: CandidateWorkflowPollIntervalMillis::new(1_000).unwrap(),
    }
}

fn admission() -> IntentAdmissionProcessConfigV1 {
    IntentAdmissionProcessConfigV1 {
        executable: "/usr/bin/admit".to_string(),
        restricted_content_database: "/srv/restricted.db".to_string(),
        restricted_content_directory: "/srv/restricted".to_string(),
        process_timeout_ms: IntentAdmissionProcessTimeoutMillis::new(1_000).unwrap(),
        stdout_byte_limit: IntentAdmissionStdoutByteLimit::new(64).unwrap(),
        stderr_byte_limit: IntentAdmissionStderrByteLimit::new(8).unwrap(),
    }
}

#[test]
fn process_quantities_reject_zero_and_values_outside_current_v1_bounds() {
    assert!(ProposalHostProcessTimeoutMillis::new(0).is_err());
    assert!(ProposalHostProcessTimeoutMillis::new(86400001).is_err());
    assert!(ProposalHostStdoutByteLimit::new(2097153).is_err());
    assert!(ProposalHostStderrByteLimit::new(0).is_err());
    assert!(CandidateWorkflowPollIntervalMillis::new(60001).is_err());
}

#[test]
fn process_quantities_accept_their_bounds() {
    assert_eq!(ProposalHostProcessTimeoutMillis::new(86_400_000).unwrap().get(), 86_400_000);
    assert_eq!(ProposalHostStdoutByteLimit::new(2_097_152).unwrap().get(), 2_097_152);
    assert_eq!(ProposalHostStderrByteLimit::new(1).unwrap().get(), 1);
    assert_eq!(CandidateWorkflowPollIntervalMillis::new(60_000).unwrap().get(), 60_000);
    assert_eq!(IntentAdmissionStdoutByteLimit::new(2_097_153).is_err(), true);
    assert_eq!(
        IntentAdmissionProcessTimeoutMillis::new(0),
        Err(ServerError::Configuration(
            "IntentAdmissionProcessTimeoutMillis is outside its positive current-V1 bound".to_string()
        ))
    );
}

fn host_facts(executable_is_file: bool) -> HostProcessFactsV1 {
    HostProcessFactsV1 { executable_is_file, binary_identity: Ok(()), resolved_model: Ok(()) }
}

#[test]
fn manager_config_is_strict_current_v1_before_process_or_model_access() {
    let non_v1 = manager(99);
    assert!(matches!(
        non_v1.validate(&host_facts(true)),
        Err(ServerError::Configuration(message))
            if message == "only Candidate workflow manager schema_version 1 is supported"
    ));
    assert_eq!(manager(1).validate(&host_facts(true)), Ok(()));
    assert_eq!(
        manager(1).validate(&host_facts(false)),
        Err(ServerError::Configuration("Proposal Host executable must name an existing regular file".to_string()))
    );
}

#[test]
fn host_config_checks_identity_then_model() {
    let drifted = HostProcessFactsV1 {
        executable_is_file: true,
        binary_identity: Ok(()),
        resolved_model: Err(ServerError::Configuration(
            "resolved runtime model changed the configured Proposal Host policy".to_string(),
        )),
    };
    assert_eq!(
        manager(1).validate(&drifted),
        Err(ServerError::Configuration("resolved runtime model changed the configured Proposal Host policy".to_string()))
    );
    let unreadable = HostProcessFactsV1 {
        binary_identity: Err(ServerError::Configuration("no such file".to_string())),
        ..drifted
    };
    assert_eq!(proposal_host::check_host_facts(&unreadable), Err(ServerError::Configuration("no such file".to_string())));
    assert_eq!(proposal_host::check_host_facts(&host_facts(true)), Ok(()));
}

#[test]
fn manager_paths_resolve_against_the_configuration_directory() {
    let mut m = manager(1);
    m.resolve_paths("/etc/cairn");
    assert_eq!(m.proposal_host.executable, "/etc/cairn/bin/proposal-host");
    assert_eq!(m.proposal_host.state_root, "/var/lib/cairn/host");
    assert_eq!(m.proposal_host.resolved_runtime_model, "/etc/cairn/model.json");
    assert_eq!(m.task_id, 7);
}

#[test]
fn host_runs_are_accepted_only_within_limits_with_a_bound_terminal() {
    let c = host();
    let exited = |success: bool, stdout_len: u64, stderr_len: u64, bound_terminal: bool| HostRunV1::Exited {
        success,
        stdout_len,
        stderr_len,
        bound_terminal,
    };
    assert_eq!(classify_host_run(exited(true, 100, 10, true), &c), Ok(()));
    assert_eq!(classify_host_run(exited(true, 101, 10, true), &c), Err(ProposalHostProcessBlockedV1::StdoutLimitExceeded));
    assert_eq!(classify_host_run(exited(true, 100, 11, true), &c), Err(ProposalHostProcessBlockedV1::StderrLimitExceeded));
    assert_eq!(classify_host_run(exited(false, 0, 0, true), &c), Err(ProposalHostProcessBlockedV1::ExitFailure));
    assert_eq!(classify_host_run(exited(true, 0, 0, false), &c), Err(ProposalHostProcessBlockedV1::InvalidTerminal));
    assert_eq!(classify_host_run(HostRunV1::Drifted, &c), Err(ProposalHostProcessBlockedV1::InvocationDrift));
    assert_eq!(classify_host_run(HostRunV1::TimedOut, &c), Err(ProposalHostProcessBlockedV1::TimedOut));
    assert_eq!(classify_host_run(HostRunV1::ProcessFailed, &c), Err(ProposalHostProcessBlockedV1::ExitFailure));
    assert_eq!(classify_host_run(HostRunV1::RequestTooLarge, &c), Err(ProposalHostProcessBlockedV1::InvalidTerminal));
}

#[test]
fn admission_runs_need_one_canonical_outcome() {
    let c = admission();
    let ok = AdmissionRunV1::Exited { success: true, stdout_len: 64, stderr_len: 8, canonical_outcome: true };
    assert!(classify_admission_run(ok, &c).is_ok());
    let untyped = AdmissionRunV1::Exited { success: true, stdout_len: 10, stderr_len: 0, canonical_outcome: false };
    assert_eq!(classify_admission_run(untyped, &c).unwrap_err().reason, IntentAdmissionProcessBlockedV1::InvalidOutcome);
    let noisy = AdmissionRunV1::Exited { success: true, stdout_len: 10, stderr_len: 9, canonical_outcome: true };
    assert_eq!(classify_admission_run(noisy, &c).unwrap_err().reason, IntentAdmissionProcessBlockedV1::StderrLimitExceeded);
    let drifted = classify_admission_run(AdmissionRunV1::Drifted, &c);
    assert_eq!(drifted.unwrap_err().reason, IntentAdmissionProcessBlockedV1::InvocationDrift);
}

#[test]
fn admission_config_needs_absolute_paths_and_an_executable() {
    let c = admission();
    let public_db = "/srv/public.db".to_string();
    let public_dir = "/srv/public".to_string();
    assert_eq!(c.validate(&public_db, &public_dir, true, &Ok(())), Ok(()));
    assert_eq!(
        c.validate(&"public.db".to_string(), &public_dir, true, &Ok(())),
        Err(ServerError::Configuration(
            "Intent Admission executable and public/restricted stores must use absolute paths".to_string()
        ))
    );
    assert_eq!(
        c.validate(&public_db, &public_dir, false, &Ok(())),
        Err(ServerError::Configuration("Intent Admission executable must name an existing regular file".to_string()))
    );
    assert_eq!(
        c.validate(&"/srv/restricted.db".to_string(), &public_dir, true, &Ok(())),
        Err(ServerError::Configuration("Intent Admission public and restricted stores must remain distinct".to_string()))
    );
    assert_eq!(
        c.validate(&"/srv//restricted.db/".to_string(), &public_dir, true, &Ok(())),
        Err(ServerError::Configuration("Intent Admission public and restricted stores must remain distinct".to_string()))
    );
    let unreadable: Result<(), ServerError> = Err(ServerError::Configuration("permission denied".to_string()));
    assert_eq!(
        c.validate(&public_db, &public_dir, true, &unreadable),
        Err(ServerError::Configuration("permission denied".to_string()))
    );
}

#[test]
fn binary_identity_is_the_prefixed_sha256_of_the_contents() {
    assert_eq!(
        proposal_host::binary_identity(b"abc"),
        "sha256:ba7816bf8f01cfea414140de5dae2223b00361a396177a9cb410ff61f20015ad"
    );
    assert_eq!(
        proposal_host::binary_identity(b""),
        "sha256:e3b0c44298fc1c149afbf4c8996fb92427ae41e4649b934ca495991b7852b855"
    );
}

#[test]
fn a_failed_transition_counts_when_the_workflow_moved() {
    assert_eq!(transition_or_recover(true, true), TransitionOutcomeV1::Advanced);
    assert_eq!(transition_or_recover(false, false), TransitionOutcomeV1::Advanced);
    assert_eq!(transition_or_recover(false, true), TransitionOutcomeV1::Failed);
    assert_eq!(manager_error("stale".to_string()), ServerError::MigrationWorkflow("stale".to_string()));
}

#[test]
fn host_operations_block_on_any_invocation_drift() {
    let runtime = b"{\"episode\":7}";
    assert_eq!(proposal_host::check_host_invocation(runtime, runtime, "sha256:ab", "sha256:ab", 5, 5), Ok(()));
    let state = proposal_host::check_host_invocation(b"{}", runtime, "sha256:ab", "sha256:ab", 5, 5).unwrap_err();
    assert_eq!(state.reason, proposal_host::ProposalHostProcessBlockedV1::InvocationDrift);
    assert_eq!(state.diagnostic, "Proposal Host process state or binary changed the durable invocation");
    let binary = proposal_host::check_host_invocation(runtime, runtime, "sha256:ab", "sha256:cd", 5, 5).unwrap_err();
    assert_eq!(binary.diagnostic, "Proposal Host process state or binary changed the durable invocation");
    let model = proposal_host::check_host_invocation(runtime, runtime, "sha256:ab", "sha256:ab", 5, 6).unwrap_err();
    assert_eq!(model.reason, proposal_host::ProposalHostProcessBlockedV1::InvocationDrift);
    assert_eq!(model.diagnostic, "resolved runtime model changed the durable Host invocation");
    assert!(proposal_host::same_bytes(b"abc", b"abc"));
    assert!(!proposal_host::same_bytes(b"abc", b"abd"));
    assert!(!proposal_host::same_bytes(b"abc", b"ab"));
}

#[test]
fn admission_runs_block_when_their_authority_drifted() {
    assert_eq!(check_authorized_operation(1, 1, 2, 2), Ok(()));
    let drift = Err(IntentAdmissionProcessFailure { reason: IntentAdmissionProcessBlockedV1::InvocationDrift });
    assert_eq!(check_authorized_operation(1, 3, 2, 2), drift);
    assert_eq!(check_authorized_operation(1, 1, 2, 4), drift);
}

#[test]
fn authorized_operation_rejects_store_drift_before_child_effect() {
    let executable: u64 = 0x51;
    let restricted_store: u64 = 0x52;
    let drifted_store: u64 = 0x53;
    let failure = check_authorized_operation(executable, executable, drifted_store, restricted_store)
        .expect_err("store drift must fail before spawning the authorized effect");
    assert_eq!(failure.reason, IntentAdmissionProcessBlockedV1::InvocationDrift);
}

#[test]
fn successful_child_exit_still_requires_a_canonical_typed_outcome() {
    let config = admission();
    let echoed = b"decision\n".len() as u64;
    let failure = classify_admission_run(
        AdmissionRunV1::Exited { success: true, stdout_len: echoed, stderr_len: 0, canonical_outcome: false },
        &config,
    )
    .expect_err("untyped stdout must not become an observation");
    assert_eq!(failure.reason, IntentAdmissionProcessBlockedV1::InvalidOutcome);
}

fn resolved_model() -> ResolvedRuntimeModelV1 {
    ResolvedRuntimeModelV1 {
        canonical: true,
        provider: "openai".to_string(),
        wire_model: "gpt-5".to_string(),
        deployment: "default".to_string(),
        max_output_tokens: 32_000,
    }
}

fn selection() -> ModelSelectionV1 {
    ModelSelectionV1 {
        provider: "openai".to_string(),
        model: "gpt-5".to_string(),
        deployment: "default".to_string(),
        adapter_version: "native-protocol-v1".to_string(),
    }
}

#[test]
fn resolved_models_must_match_the_configured_selection() {
    assert!(model_policy(&resolved_model(), &selection(), 32_000));
    assert!(model_policy(&resolved_model(), &selection(), 1));
    assert!(!model_policy(&resolved_model(), &selection(), 32_001));
    let mut other_deployment = resolved_model();
    other_deployment.deployment = "eu".to_string();
    assert!(!model_policy(&other_deployment, &selection(), 1));
    let mut noncanonical = resolved_model();
    noncanonical.canonical = false;
    assert!(!model_policy(&noncanonical, &selection(), 1));
    let mut adapter = selection();
    adapter.adapter_version = "native-protocol-v2".to_string();
    assert!(!model_policy(&resolved_model(), &adapter, 1));
    assert_eq!(check_proposal_step_model(&resolved_model(), &selection(), 8), Ok(()));
    assert_eq!(
        check_proposal_step_model(&resolved_model(), &adapter, 8),
        Err("resolved runtime model changed the configured proposal-step policy".to_string())
    );
    assert_eq!(
        check_proposal_host_model(&other_deployment, &selection(), 8),
        Err(ServerError::Configuration("resolved runtime model changed the configured Proposal Host policy".to_string()))
    );
}

#[test]
fn host_requests_above_the_ingress_limit_are_refused() {
    assert_eq!(proposal_host::check_request_size(0), Ok(()));
    assert_eq!(proposal_host::check_request_size(2_097_152), Ok(()));
    let refused = proposal_host::check_request_size(2_097_153).unwrap_err();
    assert_eq!(refused.reason, proposal_host::ProposalHostProcessBlockedV1::InvalidTerminal);
    assert_eq!(refused.diagnostic, "Proposal Host request exceeds the current-V1 ingress limit");
}

#[test]
fn relative_paths_resolve_once_against_an_absolute_base() {
    let mut p = "bin/host".to_string();
    resolve(&mut p, "/etc/cairn");
    assert_eq!(p, "/etc/cairn/bin/host");
    resolve(&mut p, "/etc/cairn");
    assert_eq!(p, "/etc/cairn/bin/host");
    let mut q = "model.json".to_string();
    resolve(&mut q, "/etc/cairn/");
    assert_eq!(q, "/etc/cairn/model.json");
    let mut r = "model.json".to_string();
    resolve(&mut r, "");
    assert_eq!(r, "model.json");
    let mut a = "/srv/state".to_string();
    resolve(&mut a, "/etc/cairn");
    assert_eq!(a, "/srv/state");
}

#[test]
fn the_manager_schema_is_checked_before_any_file_is_read() {
    assert_eq!(manager(1).validate_schema(), Ok(()));
    assert_eq!(
        manager(99).validate_schema(),
        Err(ServerError::Configuration("only Candidate workflow manager schema_version 1 is supported".to_string()))
    );
}
