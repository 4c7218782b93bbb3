use cairn_server::server::bootstrap::{address_port, bootstrap_configuration};
use cairn_server::server::cli::{
    CredentialTailV1, RegistryTailV1, ServerCommandV1, WorkerTailV1, parse_server_arguments, parse_u64,
};
use cairn_server::server::config::{
    AppApiConfigV1, EnrollmentServerTlsFiles, EnrollmentServiceConfig, PublicWorkerControlEndpointConfig,
    ServerConfig, ServerConfigFactsV1, ServerStorageConfig, ServerTlsFiles,
};
use cairn_server::server::error::{EnrollmentRejectCode, ServerError, enrollment_rejection};
use cairn_server::server::session::{
    AcceptanceActionV1, AcceptanceFaultV1, AssignmentStateKindV1, ClockLead, SentFrameV1, SessionActionV1,
    SessionFaultV1, WorkerMessageKindV1, acknowledgement_only, admitted_resource_observation_time, advance_cursors,
    bound, controller_session_turn, decide_assignment_acceptance, session_poll_interval,
};
use cairn_server::enrollment::model::{EnrollmentError, RegistryFault, RequestFault};
use cairn_server::supervisor::intent_admission::{
    IntentAdmissionProcessConfigV1, IntentAdmissionProcessTimeoutMillis, IntentAdmissionStderrByteLimit,
    IntentAdmissionStdoutByteLimit,
};

fn args(words: &[&str]) -> Vec<String> {
    words.iter().map(|w| w.to_string()).collect()
}

fn storage() -> ServerStorageConfig {
    ServerStorageConfig {
        event_database: "/var/lib/cairn/events.db".to_string(),
        content_database: "/var/lib/cairn/content.db".to_string(),
        content_directory: "/var/lib/cairn/content".to_string(),
    }
}

fn enrollment_service() -> EnrollmentServiceConfig {
    EnrollmentServiceConfig {
        listen: "0.0.0.0:7444".to_string(),
        public_tcp_address: "controller.example:7444".to_string(),
        websocket_uri: "wss://controller.example:7444/enroll".to_string(),
        server_name: "controller.example".to_string(),
        server_ca: "enrollment-ca.pem".to_string(),
        server_tls: EnrollmentServerTlsFiles {
            certificate: "enrollment.pem".to_string(),
            private_key: "enrollment.key".to_string(),
        },
        control_endpoint: PublicWorkerControlEndpointConfig {
            tcp_address: "controller.example:7443".to_string(),
            websocket_uri: "wss://controller.example:7443/control".to_string(),
            server_name: "controller.example".to_string(),
            server_ca: "control-ca.pem".to_string(),
        },
        issuer_certificate: "issuer.pem".to_string(),
        issuer_private_key: "issuer.key".to_string(),
        credential_validity_ms: 86_400_000,
        rotation_overlap_ms: Some(300_000),
        handshake_timeout_ms: None,
        diagnostic_byte_limit: None,
    }
}

fn intent_admission() -> IntentAdmissionProcessConfigV1 {
    IntentAdmissionProcessConfigV1 {
        executable: "/usr/local/bin/intent-admission".to_string(),
        restricted_content_database: "/var/lib/cairn/restricted.db".to_string(),
        restricted_content_directory: "/var/lib/cairn/restricted".to_string(),
        process_timeout_ms: IntentAdmissionProcessTimeoutMillis::new(30_000).unwrap(),
        stdout_byte_limit: IntentAdmissionStdoutByteLimit::new(4096).unwrap(),
        stderr_byte_limit: IntentAdmissionStderrByteLimit::new(4096).unwrap(),
    }
}

fn config(schema_version: u16) -> ServerConfig {
    ServerConfig {
        schema_version,
        listen: "0.0.0.0:7443".to_string(),
        tls: ServerTlsFiles {
            certificate: "server.pem".to_string(),
            private_key: "server.key".to_string(),
            client_ca: "client-ca.pem".to_string(),
        },
        enrollment_service: Some(enrollment_service()),
        storage: storage(),
        app_api: Some(AppApiConfigV1 {
            unix_socket: "/run/cairn/app.sock".to_string(),
            proposal_step_resolved_runtime_model: "model.json".to_string(),
            intent_admission: intent_admission(),
            oracle_documentation: "docs".to_string(),
            oracle_build_and_tests: "cargo test".to_string(),
        }),
        protocol_version: 1,
        scheduler_policy_supported: Some(true),
        handshake_timeout_ms: None,
        idle_timeout_ms: None,
        outbox_poll_interval_ms: None,
        authority_poll_interval_ms: 1000,
        resource_clock_skew_tolerance_ms: None,
        diagnostic_byte_limit: None,
    }
}

fn facts() -> ServerConfigFactsV1 {
    ServerConfigFactsV1 {
        proposal_step_model: Ok(()),
        intent_admission_executable_is_file: true,
        intent_admission_identities: Ok(()),
        scheduler_chunk_size: Ok(()),
        issuer_is_trusted_client_ca: Ok(true),
    }
}

fn configuration(message: &str) -> ServerError {
    ServerError::Configuration(message.to_string())
}

#[test]
fn resource_clock_lead_requires_an_explicit_bound() {
    let controller = 1_000;
    let worker = 1_250;
    assert!(admitted_resource_observation_time(controller, worker, None).is_err());
    assert_eq!(
        admitted_resource_observation_time(controller, worker, Some(250)).expect("lead at configured boundary"),
        worker
    );
    assert!(admitted_resource_observation_time(controller, worker, Some(249)).is_err());
    assert_eq!(
        admitted_resource_observation_time(controller, 900, None).expect("worker behind controller"),
        controller
    );
}

#[test]
fn clock_lead_reports_its_size_and_overflow() {
    assert_eq!(admitted_resource_observation_time(1_000, 1_250, Some(249)), Err(ClockLead::Exceeds { lead_ms: 250 }));
    assert_eq!(admitted_resource_observation_time(1_000, 1_000, None), Ok(1_000));
    assert_eq!(admitted_resource_observation_time(i64::MIN, i64::MAX, Some(u64::MAX)), Err(ClockLead::Overflowed));
}

#[test]
fn only_schema_version_one_is_accepted() {
    let unsupported = config(99);
    assert!(unsupported.validate_schema().is_err());
    assert_eq!(unsupported.validate_schema(), Err(configuration("only server schema_version 1 is supported")));
    assert_eq!(config(1).validate_schema(), Ok(()));
}

#[test]
fn documented_shape_validates_with_established_facts() {
    assert_eq!(config(1).validate(&facts()), Ok(()));
    let mut without_optional = config(1);
    without_optional.app_api = None;
    without_optional.enrollment_service = None;
    without_optional.scheduler_policy_supported = None;
    let refusing = ServerConfigFactsV1 { scheduler_chunk_size: Err("chunk".to_string()), ..facts() };
    assert_eq!(without_optional.validate(&refusing), Ok(()));
}

#[test]
fn configuration_checks_refuse_in_order() {
    assert_eq!(config(2).validate(&facts()), Err(configuration("only server schema_version 1 is supported")));

    let mut relative_socket = config(1);
    relative_socket.app_api.as_mut().unwrap().unix_socket = "app.sock".to_string();
    assert_eq!(relative_socket.validate(&facts()), Err(configuration("App API unix_socket must be absolute")));

    let model = ServerConfigFactsV1 { proposal_step_model: Err("model drifted".to_string()), ..facts() };
    assert_eq!(config(1).validate(&model), Err(configuration("model drifted")));

    let missing_executable = ServerConfigFactsV1 { intent_admission_executable_is_file: false, ..facts() };
    assert_eq!(
        config(1).validate(&missing_executable),
        Err(configuration("Intent Admission executable must name an existing regular file"))
    );

    let mut relative_store = config(1);
    relative_store.storage.content_directory = "content".to_string();
    assert_eq!(
        relative_store.validate(&facts()),
        Err(configuration("Intent Admission executable and public/restricted stores must use absolute paths"))
    );

    let identities = ServerConfigFactsV1 { intent_admission_identities: Err(ServerError::Startup("hash".to_string())), ..facts() };
    assert_eq!(config(1).validate(&identities), Err(ServerError::Startup("hash".to_string())));

    let mut untrimmed = config(1);
    untrimmed.app_api.as_mut().unwrap().oracle_documentation = " docs".to_string();
    assert_eq!(
        untrimmed.validate(&facts()),
        Err(configuration("Oracle documentation and build/test context must be non-empty and trimmed"))
    );

    let mut policy = config(1);
    policy.scheduler_policy_supported = Some(false);
    assert_eq!(
        policy.validate(&facts()),
        Err(configuration("only scheduler policy stable-worker-id-quantitative-v1 is supported"))
    );

    let chunk = ServerConfigFactsV1 { scheduler_chunk_size: Err("chunk too large".to_string()), ..facts() };
    assert_eq!(config(1).validate(&chunk), Err(configuration("chunk too large")));

    let mut shared_listener = config(1);
    shared_listener.enrollment_service.as_mut().unwrap().listen = "0.0.0.0:7443".to_string();
    assert_eq!(
        shared_listener.validate(&facts()),
        Err(configuration("enrollment service must use a distinct listener and non-empty public endpoint"))
    );

    let mut empty_control = config(1);
    empty_control.enrollment_service.as_mut().unwrap().control_endpoint.server_name = String::new();
    assert_eq!(
        empty_control.validate(&facts()),
        Err(configuration("enrollment control_endpoint must have a non-empty public endpoint"))
    );

    let untrusted = ServerConfigFactsV1 { issuer_is_trusted_client_ca: Ok(false), ..facts() };
    assert_eq!(
        config(1).validate(&untrusted),
        Err(configuration("credential issuer must be the client CA trusted by the control listener"))
    );
    let unreadable = ServerConfigFactsV1 { issuer_is_trusted_client_ca: Err("unreadable issuer".to_string()), ..facts() };
    assert_eq!(config(1).validate(&unreadable), Err(configuration("unreadable issuer")));
}

#[test]
fn relative_paths_resolve_against_the_configuration_directory() {
    let mut c = config(1);
    c.resolve_paths("/etc/cairn");
    assert_eq!(c.tls.certificate, "/etc/cairn/server.pem");
    assert_eq!(c.tls.client_ca, "/etc/cairn/client-ca.pem");
    assert_eq!(c.storage.event_database, "/var/lib/cairn/events.db");
    let app = c.app_api.as_ref().unwrap();
    assert_eq!(app.unix_socket, "/run/cairn/app.sock");
    assert_eq!(app.proposal_step_resolved_runtime_model, "/etc/cairn/model.json");
}

#[test]
fn command_line_selects_each_operator_command() {
    assert_eq!(
        parse_server_arguments(&args(&["cairn-server", "controller.json"])),
        Ok(ServerCommandV1::Run { config: "controller.json".to_string() })
    );
    assert_eq!(
        parse_server_arguments(&args(&["cairn-server", "registry", "list", "c.json"])),
        Ok(ServerCommandV1::Registry { config: "c.json".to_string(), tail: Some(RegistryTailV1::List) })
    );
    assert_eq!(
        parse_server_arguments(&args(&["cairn-server", "registry", "show-worker", "c.json", "w1"])),
        Ok(ServerCommandV1::Registry {
            config: "c.json".to_string(),
            tail: Some(RegistryTailV1::ShowWorker { worker_id: "w1".to_string() }),
        })
    );
    assert_eq!(
        parse_server_arguments(&args(&["cairn-server", "enrollment", "create", "c.json", "gpu", "60000", "out.json"])),
        Ok(ServerCommandV1::EnrollmentCreate {
            config: "c.json".to_string(),
            pool: "gpu".to_string(),
            rest: Some((60_000, "out.json".to_string())),
        })
    );
    assert_eq!(
        parse_server_arguments(&args(&["cairn-server", "enrollment", "create", "c.json", "gpu", "0", "out.json"])),
        Ok(ServerCommandV1::EnrollmentCreate { config: "c.json".to_string(), pool: "gpu".to_string(), rest: None })
    );
    assert_eq!(
        parse_server_arguments(&args(&["cairn-server", "credential", "rotate", "c.json", "cred", "+15", "o.json"])),
        Ok(ServerCommandV1::Credential {
            config: "c.json".to_string(),
            credential_id: "cred".to_string(),
            tail: Some(CredentialTailV1::Rotate { ttl_ms: 15, output: "o.json".to_string() }),
        })
    );
    assert_eq!(
        parse_server_arguments(&args(&["cairn-server", "worker", "set-pool", "c.json", "w", "cpu"])),
        Ok(ServerCommandV1::Worker {
            config: "c.json".to_string(),
            worker_id: "w".to_string(),
            tail: Some(WorkerTailV1::SetPool { pool: "cpu".to_string(), command_id: None }),
        })
    );
    assert_eq!(
        parse_server_arguments(&args(&["cairn-server", "reservation", "release", "c.json", "r", "cmd"])),
        Ok(ServerCommandV1::ReservationRelease {
            config: "c.json".to_string(),
            reservation_id: "r".to_string(),
            command_id: "cmd".to_string(),
        })
    );
}

#[test]
fn command_line_refuses_malformed_usage() {
    assert_eq!(parse_server_arguments(&args(&["cairn-server"])), Err(ServerError::Usage));
    assert_eq!(parse_server_arguments(&args(&["cairn-server", "a.json", "b.json"])), Err(ServerError::Usage));
    assert_eq!(parse_server_arguments(&args(&["cairn-server", "reservation", "release", "c.json"])), Err(ServerError::Usage));
    assert_eq!(parse_server_arguments(&args(&["cairn-server", "model", "resolve", "catalog"])), Err(ServerError::Usage));
}

#[test]
fn decimal_parsing_follows_u64_from_str() {
    assert_eq!(parse_u64("0"), Some(0));
    assert_eq!(parse_u64("+42"), Some(42));
    assert_eq!(parse_u64("18446744073709551615"), Some(u64::MAX));
    assert_eq!(parse_u64("18446744073709551616"), None);
    assert_eq!(parse_u64(""), None);
    assert_eq!(parse_u64("+"), None);
    assert_eq!(parse_u64("-1"), None);
    assert_eq!(parse_u64("1a"), None);
}

#[test]
fn diagnostics_are_bounded_on_character_boundaries() {
    assert_eq!(bound("hello", None), "hello");
    assert_eq!(bound("hello", Some(3)), "hel");
    assert_eq!(bound("hello", Some(10)), "hello");
    assert_eq!(bound("aé", Some(2)), "a");
    assert_eq!(bound("aé", Some(3)), "aé");
}

#[test]
fn session_turns_follow_authority_and_message() {
    assert_eq!(controller_session_turn(false, None, 0, None), SessionActionV1::End(SessionFaultV1::AuthorityRevoked));
    assert_eq!(controller_session_turn(true, None, 0, None), SessionActionV1::Poll);
    assert_eq!(
        controller_session_turn(true, Some(WorkerMessageKindV1::Hello), 0, None),
        SessionActionV1::End(SessionFaultV1::HelloRepeated)
    );
    assert_eq!(
        controller_session_turn(true, Some(WorkerMessageKindV1::ResourcesObserved { observed_at: 1_100 }), 1_000, Some(100)),
        SessionActionV1::RecordResources { accepted_at: 1_100 }
    );
    assert_eq!(
        controller_session_turn(true, Some(WorkerMessageKindV1::ResourcesObserved { observed_at: 1_101 }), 1_000, Some(100)),
        SessionActionV1::End(SessionFaultV1::ResourceClock(ClockLead::Exceeds { lead_ms: 101 }))
    );
    assert_eq!(controller_session_turn(true, Some(WorkerMessageKindV1::Heartbeat), 0, None), SessionActionV1::RecordHeartbeat);
    assert_eq!(controller_session_turn(true, Some(WorkerMessageKindV1::Control), 0, None), SessionActionV1::AcceptControlFrame);
    assert_eq!(
        controller_session_turn(true, Some(WorkerMessageKindV1::MaterialChunkRequest), 0, None),
        SessionActionV1::ServeMaterialChunk
    );
    assert_eq!(session_poll_interval(Some(50), 1000), 50);
    assert_eq!(session_poll_interval(Some(5000), 1000), 1000);
    assert_eq!(session_poll_interval(None, 1000), 1000);
}

#[test]
fn assignment_acceptance_is_idempotent_for_the_same_binding() {
    assert_eq!(
        decide_assignment_acceptance(false, AssignmentStateKindV1::Leased, true),
        Err(AcceptanceFaultV1::ClaimantDiffers)
    );
    assert_eq!(
        decide_assignment_acceptance(true, AssignmentStateKindV1::NotFound, true),
        Err(AcceptanceFaultV1::NoDurableAssignment)
    );
    assert_eq!(decide_assignment_acceptance(true, AssignmentStateKindV1::Leased, false), Ok(AcceptanceActionV1::AcceptAndStart));
    assert_eq!(decide_assignment_acceptance(true, AssignmentStateKindV1::Accepted, true), Ok(AcceptanceActionV1::Start));
    assert_eq!(decide_assignment_acceptance(true, AssignmentStateKindV1::Running, true), Ok(AcceptanceActionV1::EnqueueStart));
    assert_eq!(
        decide_assignment_acceptance(true, AssignmentStateKindV1::ExecutionTerminal, true),
        Ok(AcceptanceActionV1::Ignore)
    );
    assert_eq!(
        decide_assignment_acceptance(true, AssignmentStateKindV1::Accepted, false),
        Err(AcceptanceFaultV1::ConflictingBinding)
    );
}

#[test]
fn outbound_cursors_and_bare_acknowledgements() {
    assert_eq!(acknowledgement_only(Some(5), true, Some(4)), Some(5));
    assert_eq!(acknowledgement_only(Some(5), true, Some(5)), None);
    assert_eq!(acknowledgement_only(Some(5), false, None), None);
    assert_eq!(acknowledgement_only(None, true, None), None);
    let frames = vec![
        SentFrameV1 { sequence: 7, acknowledges_peer_through: Some(3) },
        SentFrameV1 { sequence: 8, acknowledges_peer_through: None },
    ];
    assert_eq!(advance_cursors(&frames, Some(6), Some(2)), (Some(8), Some(3)));
    assert_eq!(advance_cursors(&Vec::new(), Some(6), Some(2)), (Some(6), Some(2)));
}

#[test]
fn enrollment_refusals_map_to_wire_codes() {
    assert_eq!(
        enrollment_rejection(&EnrollmentError::InvalidAuthority),
        (EnrollmentRejectCode::InvalidAuthority, "enrollment authority is invalid")
    );
    assert_eq!(
        enrollment_rejection(&EnrollmentError::Revoked),
        (EnrollmentRejectCode::InvalidAuthority, "enrollment authority was revoked")
    );
    assert_eq!(enrollment_rejection(&EnrollmentError::Expired), (EnrollmentRejectCode::Expired, "enrollment authority has expired"));
    assert_eq!(
        enrollment_rejection(&EnrollmentError::AlreadyUsed),
        (EnrollmentRejectCode::AlreadyUsed, "enrollment authority was already used")
    );
    assert_eq!(
        enrollment_rejection(&EnrollmentError::InvalidRequest(RequestFault::CsrEmptyOrTooLarge)),
        (EnrollmentRejectCode::InvalidRequest, "enrollment request is invalid")
    );
    assert_eq!(
        enrollment_rejection(&EnrollmentError::InvalidHistory(RegistryFault::CausalParentDiffers)),
        (EnrollmentRejectCode::ControllerUnavailable, "controller could not durably issue a credential")
    );
}

#[test]
fn offers_need_a_valid_configuration_with_an_enrollment_service() {
    let c = config(1);
    assert_eq!(c.offer_service(&facts()).map(|s| s.listen.clone()), Ok("0.0.0.0:7444".to_string()));
    let mut without = config(1);
    without.enrollment_service = None;
    assert_eq!(
        without.offer_service(&facts()).map(|s| s.listen.clone()),
        Err(configuration("enrollment_service is not configured"))
    );
    assert_eq!(
        config(3).offer_service(&facts()).map(|s| s.listen.clone()),
        Err(configuration("only server schema_version 1 is supported"))
    );
}

#[test]
fn addresses_name_their_port_after_the_last_colon() {
    assert_eq!(address_port("127.0.0.1:7443"), Some("7443"));
    assert_eq!(address_port("[::1]:80"), Some("80"));
    assert_eq!(address_port("controller.example:"), Some(""));
    assert_eq!(address_port("controller.example"), None);
}

#[test]
fn bootstrap_fills_in_the_advertised_endpoints() {
    let filled = bootstrap_configuration(config(1), "cairn.local", "10.0.0.5:7443", "10.0.0.5:7444").unwrap();
    assert_eq!(filled.listen, "10.0.0.5:7443");
    let service = filled.enrollment_service.as_ref().unwrap();
    assert_eq!(service.listen, "10.0.0.5:7444");
    assert_eq!(service.public_tcp_address, "10.0.0.5:7444");
    assert_eq!(service.server_name, "cairn.local");
    assert_eq!(service.websocket_uri, "wss://cairn.local:7444/enrollment");
    assert_eq!(service.control_endpoint.tcp_address, "10.0.0.5:7443");
    assert_eq!(service.control_endpoint.websocket_uri, "wss://cairn.local:7443/control");
    assert_eq!(service.issuer_certificate, "issuer.pem");
    assert_eq!(filled.storage, storage());

    assert_eq!(
        bootstrap_configuration(config(1), "cairn.local", "10.0.0.5:7443", "nowhere").err(),
        Some(ServerError::Startup("nowhere does not name a port".to_string()))
    );
    assert_eq!(
        bootstrap_configuration(config(1), "cairn.local", "nowhere", "10.0.0.5:7444").err(),
        Some(ServerError::Startup("nowhere does not name a port".to_string()))
    );
    let mut without = config(1);
    without.enrollment_service = None;
    assert_eq!(
        bootstrap_configuration(without, "cairn.local", "10.0.0.5:7443", "10.0.0.5:7444").err(),
        Some(ServerError::Startup("documented configuration has no enrollment service".to_string()))
    );
}
