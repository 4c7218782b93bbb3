use cairn_server::enrollment::decide::{
    RegistryAppendV1, RegistryMutationDecisionV1, RegistryMutationOutcome, assign_worker_pool, disable_worker,
    enable_worker, revoke_credential, revoke_enrollment,
};
use cairn_server::enrollment::digest::{digest_wire, hex_nibble, hex_wire, parse_digest};
use cairn_server::enrollment::model::{
    EnrolledWorker, EnrollmentError, EnrollmentPurposeV1, IssuedWorkerCredentialV1, RegistryEventV1, RegistryFactV1,
    RegistryFault, RegistryPayloadV1, RegistrySchemaV1, RequestFault,
};
use cairn_server::enrollment::redeem::{
    EnrollmentRequestV1, RedeemDecisionV1, RedeemIssueV1, credential_validity_window, issue_credential, offer_fact,
    plan_bootstrap_offer, plan_rotation_offer, redeem,
};
use cairn_server::enrollment::registry::project_history;
use cairn_server::enrollment::report::{RegistryCredentialStatus, audit_registry, inspect_registry};
use cairn_server::server::error::ServerError;
use cairn_server::server::session::{
    ClockLead, ControllerRejectCode, HelloDecisionV1, WorkerHelloV1, admit_worker_hello, reconfirm_enrolled_worker,
};

const CSR: &str = "-----BEGIN CERTIFICATE REQUEST-----\nMIIB\n-----END CERTIFICATE REQUEST-----\n";
const FINGERPRINT: [u8; 32] = [3; 32];

fn record(history: &mut Vec<RegistryEventV1>, command_id: u128, observed_at: i64, fact: RegistryFactV1) -> u128 {
    let event_id = 100 + history.len() as u128;
    history.push(RegistryEventV1 {
        event_id,
        parent_event_id: history.last().map(|e| e.event_id),
        sequence: history.len() as u64 + 1,
        command_id,
        schema_version: 1,
        observed_at,
        payload: RegistryPayloadV1::Fact(fact),
    });
    event_id
}

fn request(enrollment_id: u128, secret: &[u8], csr: &str) -> EnrollmentRequestV1 {
    EnrollmentRequestV1 { schema_version: 1, enrollment_id, secret: secret.to_vec(), csr_pem: csr.to_string() }
}

fn issue(decision: RedeemDecisionV1) -> RedeemIssueV1 {
    match decision {
        RedeemDecisionV1::Issue(plan) => plan,
        other => panic!("expected an issuance, got {:?}", other),
    }
}

/// One bootstrap offer (event 100) redeemed into credential 9 of worker 7 (event 101).
fn enrolled_history() -> (Vec<RegistryEventV1>, IssuedWorkerCredentialV1) {
    let mut history = Vec::new();
    let plan = plan_bootstrap_offer(&history, "gpu".to_string(), 60_000, 1_000).unwrap();
    record(&mut history, 500, 1_000, offer_fact(&plan, 1, b"secret", Some(5)));
    let plan = issue(redeem(&history, &request(1, b"secret", CSR), 2_000).unwrap());
    let (credential, fact) = issue_credential(&plan, 7, 9, "CERT".to_string(), FINGERPRINT, 2_000);
    record(&mut history, 501, 2_000, fact);
    (history, credential)
}

fn appended(decision: RegistryMutationDecisionV1) -> RegistryAppendV1 {
    match decision {
        RegistryMutationDecisionV1::Append(append) => append,
        other => panic!("expected an append, got {:?}", other),
    }
}

#[test]
fn digests_travel_as_lowercase_hexadecimal() {
    assert_eq!(digest_wire(b"abc"), "ba7816bf8f01cfea414140de5dae2223b00361a396177a9cb410ff61f20015ad");
    let digest = parse_digest("ba7816bf8f01cfea414140de5dae2223b00361a396177a9cb410ff61f20015ad").unwrap();
    assert_eq!(digest[0], 0xba);
    assert_eq!(digest[31], 0xad);
    assert_eq!(hex_wire(&digest), "ba7816bf8f01cfea414140de5dae2223b00361a396177a9cb410ff61f20015ad");
    let bytes: [u8; 32] = core::array::from_fn(|i| (i as u8).wrapping_mul(37));
    assert_eq!(parse_digest(&hex_wire(&bytes)), Some(bytes));
    assert_eq!(parse_digest("BA7816BF8F01CFEA414140DE5DAE2223B00361A396177A9CB410FF61F20015AD"), None);
    assert_eq!(parse_digest("ba78"), None);
    assert_eq!(hex_nibble(b'f'), Some(15));
    assert_eq!(hex_nibble(b'0'), Some(0));
    assert_eq!(hex_nibble(b'g'), None);
}

#[test]
fn bootstrap_offer_is_frozen_against_the_head() {
    let history = Vec::new();
    let plan = plan_bootstrap_offer(&history, "gpu".to_string(), 60_000, 1_000).unwrap();
    assert_eq!(plan.purpose, EnrollmentPurposeV1::Bootstrap);
    assert_eq!(plan.expires_at, 61_000);
    assert_eq!(plan.parent_event_id, None);
    assert_eq!(plan.expected_revision, None);
    assert_eq!(
        plan_bootstrap_offer(&history, "gpu".to_string(), u64::MAX, 0),
        Err(EnrollmentError::InvalidRequest(RequestFault::TtlTooLarge))
    );
    assert_eq!(
        plan_bootstrap_offer(&history, "gpu".to_string(), 10, i64::MAX),
        Err(EnrollmentError::InvalidRequest(RequestFault::TtlOverflowsTime))
    );
    match offer_fact(&plan, 1, b"abc", Some(5)) {
        RegistryFactV1::OfferCreated { enrollment_id, token_digest, pool, expires_at, rotation_overlap_ms, .. } => {
            assert_eq!(enrollment_id, 1);
            assert_eq!(token_digest, "ba7816bf8f01cfea414140de5dae2223b00361a396177a9cb410ff61f20015ad");
            assert_eq!(pool, "gpu");
            assert_eq!(expires_at, 61_000);
            assert_eq!(rotation_overlap_ms, None);
        },
        other => panic!("unexpected {:?}", other),
    }
}

#[test]
fn redemption_issues_once_and_replays_the_same_credential() {
    let (history, credential) = enrolled_history();
    assert_eq!(credential.worker_id, 7);
    assert_eq!(credential.credential_id, 9);
    assert_eq!(credential.pool, "gpu");
    assert_eq!(credential.predecessor_credential_id, None);
    assert_eq!(redeem(&history, &request(1, b"secret", CSR), 3_000), Ok(RedeemDecisionV1::Replayed(credential)));
    assert_eq!(redeem(&history, &request(1, b"secret", "other csr"), 3_000), Err(EnrollmentError::AlreadyUsed));
}

#[test]
fn redemption_refuses_invalid_authority_and_requests() {
    let mut history = Vec::new();
    let plan = plan_bootstrap_offer(&history, "gpu".to_string(), 60_000, 1_000).unwrap();
    record(&mut history, 500, 1_000, offer_fact(&plan, 1, b"secret", None));
    let fresh = redeem(&history, &request(1, b"secret", CSR), 61_000).unwrap();
    let plan = issue(fresh);
    assert_eq!(plan.enrollment_id, 1);
    assert_eq!(plan.pool, "gpu");
    assert_eq!(plan.parent_event_id, Some(100));
    assert_eq!(plan.expected_revision, Some(1));
    assert_eq!(redeem(&history, &request(1, b"wrong", CSR), 2_000), Err(EnrollmentError::InvalidAuthority));
    assert_eq!(redeem(&history, &request(2, b"secret", CSR), 2_000), Err(EnrollmentError::InvalidAuthority));
    assert_eq!(redeem(&history, &request(1, b"secret", CSR), 61_001), Err(EnrollmentError::Expired));
    assert_eq!(
        redeem(&history, &request(1, b"secret", ""), 2_000),
        Err(EnrollmentError::InvalidRequest(RequestFault::CsrEmptyOrTooLarge))
    );
    let mut v2 = request(1, b"secret", CSR);
    v2.schema_version = 2;
    assert_eq!(redeem(&history, &v2, 2_000), Err(EnrollmentError::InvalidRequest(RequestFault::UnsupportedRequestSchema)));

    let revoke = appended(revoke_enrollment(&history, 1, 600, 2_000).unwrap());
    assert_eq!(revoke.fact, RegistryFactV1::EnrollmentRevoked { enrollment_id: 1 });
    record(&mut history, 600, 2_000, revoke.fact);
    assert_eq!(redeem(&history, &request(1, b"secret", CSR), 2_000), Err(EnrollmentError::Revoked));
}

#[test]
fn the_enrolled_credential_authorizes_its_worker() {
    let (history, _) = enrolled_history();
    let registry = project_history(&history, 3_000).unwrap();
    assert!(registry.credential_is_authorized(9, 7));
    assert!(!registry.credential_is_authorized(9, 8));
    assert_eq!(registry.last_event_id(), Some(101));
    assert_eq!(registry.revision(), Some(2));
    assert_eq!(registry.worker_ids().into_iter().collect::<Vec<u128>>(), vec![7]);
    assert_eq!(
        registry.enrolled_worker(&FINGERPRINT),
        Some(EnrolledWorker { worker_id: 7, credential_id: 9, pool: "gpu".to_string(), pool_assignment_revision: 101 })
    );
    assert_eq!(registry.enrolled_worker(&[4; 32]), None);

    let report = inspect_registry(&history, 3_000).unwrap();
    assert_eq!(report.event_count(), 2);
    assert_eq!(report.workers().len(), 1);
    assert_eq!(report.workers()[0].credential_ids(), &[9]);
    let credential = report.credential(9).unwrap();
    assert_eq!(credential.status(), RegistryCredentialStatus::Active);
    assert_eq!(credential.certificate_fingerprint(), FINGERPRINT);

    let audit = audit_registry(&history, 3_000).unwrap();
    assert_eq!(audit.worker_count(), 1);
    assert_eq!(audit.credential_count(), 1);
    assert_eq!(audit.authorized_credential_count(), 1);
    assert_eq!(audit.enrollment_count(), 1);
    assert_eq!(audit.open_enrollment_count(), 0);
}

#[test]
fn lifecycle_mutations_append_once_and_replay() {
    let (mut history, _) = enrolled_history();
    let revoke = appended(revoke_credential(&history, 9, 700, 3_000).unwrap());
    assert_eq!(revoke.parent_event_id, Some(101));
    assert_eq!(revoke.expected_revision, Some(2));
    assert_eq!(revoke.fact, RegistryFactV1::CredentialRevoked { credential_id: 9 });
    let event_id = record(&mut history, 700, 3_000, revoke.fact);
    assert_eq!(
        revoke_credential(&history, 9, 700, 4_000),
        Ok(RegistryMutationDecisionV1::Replayed(RegistryMutationOutcome { event_id, was_replay: true }))
    );
    assert_eq!(revoke_credential(&history, 9, 701, 4_000), Err(EnrollmentError::CredentialNotActive));
    assert_eq!(disable_worker(&history, 9, 700, 4_000), Err(EnrollmentError::CommandConflict));
    let registry = project_history(&history, 4_000).unwrap();
    assert!(!registry.credential_is_authorized(9, 7));
    let report = inspect_registry(&history, 4_000).unwrap();
    assert_eq!(report.credential(9).unwrap().status(), RegistryCredentialStatus::Revoked);
}

#[test]
fn disabling_a_worker_suspends_its_credentials_until_enabled() {
    let (mut history, _) = enrolled_history();
    assert_eq!(enable_worker(&history, 7, 800, 3_000), Err(EnrollmentError::WorkerNotDisabled));
    let disable = appended(disable_worker(&history, 7, 801, 3_000).unwrap());
    record(&mut history, 801, 3_000, disable.fact);
    assert!(!project_history(&history, 3_000).unwrap().credential_is_authorized(9, 7));
    assert_eq!(
        inspect_registry(&history, 3_000).unwrap().credential(9).unwrap().status(),
        RegistryCredentialStatus::WorkerDisabled
    );
    assert_eq!(disable_worker(&history, 7, 802, 3_000), Err(EnrollmentError::WorkerNotActive));
    let enable = appended(enable_worker(&history, 7, 803, 3_000).unwrap());
    record(&mut history, 803, 3_000, enable.fact);
    assert!(project_history(&history, 3_000).unwrap().credential_is_authorized(9, 7));
}

#[test]
fn pool_assignment_moves_a_disabled_worker_once() {
    let (mut history, _) = enrolled_history();
    assert_eq!(assign_worker_pool(&history, 7, "cpu".to_string(), 900, 3_000), Err(EnrollmentError::WorkerNotDisabled));
    let disable = appended(disable_worker(&history, 7, 901, 3_000).unwrap());
    record(&mut history, 901, 3_000, disable.fact);
    assert_eq!(assign_worker_pool(&history, 7, "gpu".to_string(), 902, 3_000), Err(EnrollmentError::WorkerPoolUnchanged));
    let assign = appended(assign_worker_pool(&history, 7, "cpu".to_string(), 903, 3_000).unwrap());
    let event_id = record(&mut history, 903, 3_000, assign.fact);
    let report = inspect_registry(&history, 3_000).unwrap();
    let worker = report.worker(7).unwrap();
    assert_eq!(worker.pool(), "cpu");
    assert_eq!(worker.pool_assignment_revision(), event_id);
    assert!(worker.is_disabled());
    assert_eq!(
        assign_worker_pool(&history, 7, "cpu".to_string(), 903, 3_000),
        Ok(RegistryMutationDecisionV1::Replayed(RegistryMutationOutcome { event_id, was_replay: true }))
    );
    let enable = appended(enable_worker(&history, 7, 904, 3_000).unwrap());
    record(&mut history, 904, 3_000, enable.fact);
    let worker = project_history(&history, 3_000).unwrap().enrolled_worker(&FINGERPRINT).unwrap();
    assert_eq!(worker.pool, "cpu");
    assert_eq!(worker.pool_assignment_revision, event_id);
}

#[test]
fn rotation_hands_over_and_retires_the_predecessor() {
    let (mut history, _) = enrolled_history();
    let plan = plan_rotation_offer(&history, 9, 60_000, 3_000).unwrap();
    assert_eq!(plan.purpose, EnrollmentPurposeV1::Rotation { worker_id: 7, predecessor_credential_id: 9 });
    assert_eq!(plan.pool, "gpu");
    assert_eq!(plan_rotation_offer(&history, 42, 60_000, 3_000), Err(EnrollmentError::CredentialNotActive));
    record(&mut history, 502, 3_000, offer_fact(&plan, 2, b"rotate", Some(300_000)));
    let issue_plan = issue(redeem(&history, &request(2, b"rotate", CSR), 4_000).unwrap());
    assert_eq!(issue_plan.rotated_worker_id, Some(7));
    assert_eq!(issue_plan.predecessor_credential_id, Some(9));
    assert_eq!(issue_plan.predecessor_retire_at, Some(304_000));
    let (successor, fact) = issue_credential(&issue_plan, 8, 10, "CERT2".to_string(), [5; 32], 4_000);
    assert_eq!(successor.worker_id, 7);
    assert_eq!(successor.predecessor_credential_id, Some(9));
    record(&mut history, 503, 4_000, fact);

    let during = project_history(&history, 5_000).unwrap();
    assert!(during.credential_is_authorized(9, 7));
    assert!(during.credential_is_authorized(10, 7));
    let after = project_history(&history, 304_000).unwrap();
    assert!(!after.credential_is_authorized(9, 7));
    assert!(after.credential_is_authorized(10, 7));
    let report = inspect_registry(&history, 304_000).unwrap();
    assert_eq!(report.credential(9).unwrap().status(), RegistryCredentialStatus::Retired);
    assert_eq!(report.credential(9).unwrap().successor_credential_id(), Some(10));
    assert_eq!(report.credential(10).unwrap().predecessor_credential_id(), Some(9));
}

#[test]
fn projection_rejects_a_broken_history() {
    let (mut history, _) = enrolled_history();
    history[1].parent_event_id = None;
    assert_eq!(
        project_history(&history, 3_000).err(),
        Some(EnrollmentError::InvalidHistory(RegistryFault::CausalParentDiffers))
    );
    let (mut v2, _) = enrolled_history();
    v2[0].schema_version = 2;
    assert_eq!(
        project_history(&v2, 3_000).err(),
        Some(EnrollmentError::InvalidHistory(RegistryFault::SchemaVersionUnsupported(RegistrySchemaV1::OfferCreated)))
    );
    let (mut unknown, _) = enrolled_history();
    unknown[1].payload = RegistryPayloadV1::Unsupported;
    assert_eq!(project_history(&unknown, 3_000).err(), Some(EnrollmentError::InvalidHistory(RegistryFault::UnsupportedEvent)));
}

fn hello(worker_id: u128, resource_observed_at: i64) -> WorkerHelloV1 {
    WorkerHelloV1 {
        worker_id,
        protocol_version: 1,
        availability_canonical: true,
        available_slots: 1,
        max_concurrency: 2,
        resource_observed_at,
    }
}

#[test]
fn worker_hello_is_admitted_only_for_the_enrolled_identity() {
    let (mut history, _) = enrolled_history();
    let registry = project_history(&history, 3_000).unwrap();
    match admit_worker_hello(&registry, &FINGERPRINT, Some(hello(7, 2_900)), 1, 3_000, None) {
        HelloDecisionV1::Admit { worker, accepted_at } => {
            assert_eq!(worker.worker_id, 7);
            assert_eq!(accepted_at, 3_000);
        },
        other => panic!("unexpected {:?}", other),
    }
    assert_eq!(
        admit_worker_hello(&registry, &FINGERPRINT, None, 1, 3_000, None),
        HelloDecisionV1::Reject { code: ControllerRejectCode::InvalidHello, diagnostic: "the first message must be a valid hello" }
    );
    assert_eq!(
        admit_worker_hello(&registry, &[4; 32], Some(hello(7, 2_900)), 1, 3_000, None),
        HelloDecisionV1::Reject { code: ControllerRejectCode::IdentityMismatch, diagnostic: "client certificate is not enrolled" }
    );
    assert_eq!(
        admit_worker_hello(&registry, &FINGERPRINT, Some(hello(8, 2_900)), 1, 3_000, None),
        HelloDecisionV1::Reject {
            code: ControllerRejectCode::IdentityMismatch,
            diagnostic: "certificate enrollment does not match worker_id",
        }
    );
    assert_eq!(
        admit_worker_hello(&registry, &FINGERPRINT, Some(hello(7, 2_900)), 2, 3_000, None),
        HelloDecisionV1::Reject {
            code: ControllerRejectCode::UnsupportedProtocol,
            diagnostic: "worker protocol version is unsupported",
        }
    );
    let greedy = WorkerHelloV1 { available_slots: 3, ..hello(7, 2_900) };
    assert_eq!(
        admit_worker_hello(&registry, &FINGERPRINT, Some(greedy), 1, 3_000, None),
        HelloDecisionV1::Reject {
            code: ControllerRejectCode::InvalidHello,
            diagnostic: "hello availability is not canonical for the advertised profile",
        }
    );
    assert_eq!(
        admit_worker_hello(&registry, &FINGERPRINT, Some(hello(7, 3_010)), 1, 3_000, Some(5)),
        HelloDecisionV1::Fail(ClockLead::Exceeds { lead_ms: 10 })
    );

    let revoke = appended(revoke_credential(&history, 9, 700, 3_000).unwrap());
    record(&mut history, 700, 3_000, revoke.fact);
    let revoked = project_history(&history, 3_000).unwrap();
    assert_eq!(
        admit_worker_hello(&revoked, &FINGERPRINT, Some(hello(7, 2_900)), 1, 3_000, None),
        HelloDecisionV1::Reject { code: ControllerRejectCode::IdentityMismatch, diagnostic: "client certificate is not enrolled" }
    );
}

#[test]
fn certificates_are_backdated_one_minute_and_expire_after_the_validity() {
    assert_eq!(credential_validity_window(1_000_000, 86_400_000), Ok((940_000, 87_400_000)));
    assert_eq!(credential_validity_window(i64::MIN + 10, 5), Ok((i64::MIN, i64::MIN + 15)));
    assert_eq!(credential_validity_window(0, u64::MAX), Err(EnrollmentError::Issuance));
    assert_eq!(credential_validity_window(i64::MAX - 1, 2), Err(EnrollmentError::Issuance));
}

#[test]
fn the_handshake_reconfirms_the_worker_at_the_admitted_time() {
    let (mut history, _) = enrolled_history();
    let registry = project_history(&history, 3_000).unwrap();
    assert_eq!(reconfirm_enrolled_worker(&registry, &FINGERPRINT, 7).map(|w| w.credential_id), Ok(9));
    let lost = Err(ServerError::Session("worker credential lost registry authority during handshake".to_string()));
    assert_eq!(reconfirm_enrolled_worker(&registry, &FINGERPRINT, 8).map(|w| w.credential_id), lost);
    let revoke = appended(revoke_credential(&history, 9, 700, 3_000).unwrap());
    record(&mut history, 700, 3_000, revoke.fact);
    let revoked = project_history(&history, 3_000).unwrap();
    assert_eq!(reconfirm_enrolled_worker(&revoked, &FINGERPRINT, 7).map(|w| w.credential_id), lost);
}

#[test]
fn a_revoked_credential_never_authorizes_again() {
    let (mut history, _) = enrolled_history();
    let revoke = appended(revoke_credential(&history, 9, 700, 3_000).unwrap());
    record(&mut history, 700, 3_000, revoke.fact);
    let disable = appended(disable_worker(&history, 7, 701, 3_000).unwrap());
    record(&mut history, 701, 3_000, disable.fact);
    let enable = appended(enable_worker(&history, 7, 702, 3_000).unwrap());
    record(&mut history, 702, 3_000, enable.fact);
    for now in [3_000, 1_000_000, i64::MAX] {
        assert!(!project_history(&history, now).unwrap().credential_is_authorized(9, 7));
    }
}

#[test]
fn a_used_enrollment_authority_stays_used() {
    let (mut history, credential) = enrolled_history();
    assert_eq!(revoke_enrollment(&history, 1, 710, 3_000), Err(EnrollmentError::EnrollmentAlreadyIssued));
    let disable = appended(disable_worker(&history, 7, 711, 3_000).unwrap());
    record(&mut history, 711, 3_000, disable.fact);
    assert_eq!(redeem(&history, &request(1, b"secret", CSR), 9_000_000), Ok(RedeemDecisionV1::Replayed(credential)));
    assert_eq!(redeem(&history, &request(1, b"secret", "another csr"), 3_000), Err(EnrollmentError::AlreadyUsed));
}

#[test]
fn a_rotation_without_overlap_never_retires_its_predecessor() {
    let (mut history, _) = enrolled_history();
    let plan = plan_rotation_offer(&history, 9, 60_000, 3_000).unwrap();
    match offer_fact(&plan, 2, b"rotate", None) {
        RegistryFactV1::OfferCreated { rotation_overlap_ms, .. } => assert_eq!(rotation_overlap_ms, None),
        other => panic!("unexpected {:?}", other),
    }
    record(&mut history, 502, 3_000, offer_fact(&plan, 2, b"rotate", None));
    let issue_plan = issue(redeem(&history, &request(2, b"rotate", CSR), 4_000).unwrap());
    assert_eq!(issue_plan.predecessor_credential_id, Some(9));
    assert_eq!(issue_plan.predecessor_retire_at, None);
}

#[test]
fn audit_counts_stay_within_the_sets_they_refine() {
    let (mut history, _) = enrolled_history();
    assert_eq!(project_history(&history, 3_000).unwrap().last_event_id(), Some(history.last().unwrap().event_id));
    let disable = appended(disable_worker(&history, 7, 801, 3_000).unwrap());
    record(&mut history, 801, 3_000, disable.fact);
    assert_eq!(project_history(&history, 3_000).unwrap().last_event_id(), Some(history.last().unwrap().event_id));
    let audit = audit_registry(&history, 3_000).unwrap();
    assert_eq!(audit.disabled_worker_count(), 1);
    assert_eq!(audit.worker_count(), 1);
    assert_eq!(audit.authorized_credential_count(), 0);
    assert_eq!(audit.credential_count(), 1);
    assert!(audit.open_enrollment_count() <= audit.enrollment_count());
}
