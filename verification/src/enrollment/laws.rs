use vstd::prelude::*;

use crate::enrollment::model::{
    RegistryEventV1, RegistryFactV1, RegistryFault, RegistryModel, RegistryPayloadV1, authorized_at, empty_registry,
    fact_step, fingerprint_taken, issuance_step, registry_invariant, registry_of, registry_step,
};

verus! {

proof fn lemma_issuance_keeps_invariant(
    reg: RegistryModel,
    event_id: u128,
    issued_at: i64,
    fact: RegistryFactV1,
)
    requires
        registry_invariant(reg),
        fact is CredentialIssued,
        fact_step(reg, event_id, issued_at, fact) is Ok,
    ensures
        registry_invariant(fact_step(reg, event_id, issued_at, fact)->Ok_0),
{
    if let RegistryFactV1::CredentialIssued { enrollment_id, csr_digest, credential, certificate_fingerprint, .. } = fact {
        let next = issuance_step(reg, event_id, issued_at, enrollment_id, csr_digest, credential, certificate_fingerprint)->Ok_0;
        let cid = credential.credential_id;
        assert(!reg.credentials.contains_key(cid));
        assert(reg.offers[enrollment_id].issued is None);
        assert forall|k: u128| #[trigger] next.credentials.contains_key(k) implies {
            let e = next.credentials[k].enrollment_id;
            &&& next.credentials[k].enrolled.credential_id == k
            &&& next.offers.contains_key(e)
            &&& next.offers[e].issued is Some
            &&& next.offers[e].issued->0.credential.credential_id == k
            &&& next.worker_pools.contains_key(next.credentials[k].enrolled.worker_id)
        } by {
            if k != cid {
                assert(reg.credentials.contains_key(k));
                assert(reg.credentials[k].enrollment_id != enrollment_id);
            }
        }
        assert forall|k1: u128, k2: u128| #[trigger] next.credentials.contains_key(k1) && #[trigger] next.credentials.contains_key(k2)
            && k1 != k2 implies next.credentials[k1].fingerprint != next.credentials[k2].fingerprint by {
            let with_record = reg.credentials.insert(cid, next.credentials[cid]);
            assert(!fingerprint_taken(with_record, cid, certificate_fingerprint));
            if k1 == cid {
                assert(with_record.contains_key(k2));
            } else if k2 == cid {
                assert(with_record.contains_key(k1));
            } else {
                assert(reg.credentials.contains_key(k1) && reg.credentials.contains_key(k2));
            }
        }
    }
}

/// Every legal registry fact keeps the registry invariant.
pub proof fn lemma_step_keeps_invariant(reg: RegistryModel, event: RegistryEventV1)
    requires
        registry_invariant(reg),
        registry_step(reg, event) is Ok,
    ensures
        registry_invariant(registry_step(reg, event)->Ok_0),
{
    if let RegistryPayloadV1::Fact(fact) = event.payload {
        if fact is CredentialIssued {
            lemma_issuance_keeps_invariant(reg, event.event_id, event.observed_at, fact);
        } else {
            let next = fact_step(reg, event.event_id, event.observed_at, fact)->Ok_0;
            assert forall|k: u128| #[trigger] next.credentials.contains_key(k) implies reg.credentials.contains_key(k) by {}
        }
    }
}

/// A registry projected from a valid history is headed by its last event: its causal head and
/// revision are that event's, and an empty history projects the empty registry.
pub proof fn lemma_projection_heads_history(history: Seq<RegistryEventV1>)
    requires
        registry_of(history) is Ok,
    ensures
        history.len() == 0 ==> registry_of(history)->Ok_0 == empty_registry(),
        history.len() > 0 ==> registry_of(history)->Ok_0.last_event_id == Some(history.last().event_id)
            && registry_of(history)->Ok_0.revision == Some(history.last().sequence),
{
}

/// A registry projected from any valid history keeps provenance, pool coverage and unique
/// fingerprints: the consistency checks that follow the replay can never fail.
pub proof fn lemma_projection_keeps_invariant(history: Seq<RegistryEventV1>)
    requires
        registry_of(history) is Ok,
    ensures
        registry_invariant(registry_of(history)->Ok_0),
    decreases history.len(),
{
    if history.len() == 0 {
        assert(registry_invariant(empty_registry()));
    } else {
        lemma_projection_keeps_invariant(history.drop_last());
        lemma_step_keeps_invariant(registry_of(history.drop_last())->Ok_0, history.last());
    }
}

proof fn lemma_step_keeps_revocation(reg: RegistryModel, event: RegistryEventV1, credential_id: u128)
    requires
        registry_step(reg, event) is Ok,
        reg.credentials.contains_key(credential_id),
        reg.credentials[credential_id].revoked,
    ensures
        registry_step(reg, event)->Ok_0.credentials.contains_key(credential_id),
        registry_step(reg, event)->Ok_0.credentials[credential_id].revoked,
{
    if let RegistryPayloadV1::Fact(fact) = event.payload {
        if let RegistryFactV1::CredentialIssued { enrollment_id, csr_digest, credential, certificate_fingerprint, .. } = fact {
            let next = issuance_step(reg, event.event_id, event.observed_at, enrollment_id, csr_digest, credential, certificate_fingerprint);
            assert(next is Ok);
            assert(credential.credential_id != credential_id);
        }
    }
}

/// A revoked credential stays revoked: every valid extension of a registry history in which a
/// credential is revoked keeps that credential, still revoked, so it never authorizes again.
pub proof fn lemma_revocation_is_permanent(history: Seq<RegistryEventV1>, n: int, credential_id: u128, now: i64)
    requires
        0 <= n <= history.len(),
        registry_of(history.take(n)) is Ok,
        registry_of(history.take(n))->Ok_0.credentials.contains_key(credential_id),
        registry_of(history.take(n))->Ok_0.credentials[credential_id].revoked,
        registry_of(history) is Ok,
    ensures
        registry_of(history)->Ok_0.credentials.contains_key(credential_id),
        registry_of(history)->Ok_0.credentials[credential_id].revoked,
        !authorized_at(
            registry_of(history)->Ok_0.credentials[credential_id],
            registry_of(history)->Ok_0.disabled_workers,
            now,
        ),
    decreases history.len() - n,
{
    if n == history.len() {
        assert(history.take(n) == history);
    } else {
        let shorter = history.drop_last();
        assert(shorter.take(n) == history.take(n));
        assert(registry_of(shorter) is Ok);
        lemma_revocation_is_permanent(shorter, n, credential_id, now);
        lemma_step_keeps_revocation(registry_of(shorter)->Ok_0, history.last(), credential_id);
    }
}

proof fn lemma_step_keeps_issuance(reg: RegistryModel, event: RegistryEventV1, enrollment_id: u128)
    requires
        registry_step(reg, event) is Ok,
        reg.offers.contains_key(enrollment_id),
        reg.offers[enrollment_id].issued is Some,
    ensures
        registry_step(reg, event)->Ok_0.offers.contains_key(enrollment_id),
        registry_step(reg, event)->Ok_0.offers[enrollment_id].issued == reg.offers[enrollment_id].issued,
{
}

/// An enrollment offer is used once: after its credential is issued, every valid extension of the
/// history keeps exactly that issuance, so the authority can never issue a second credential.
pub proof fn lemma_issuance_is_permanent(history: Seq<RegistryEventV1>, n: int, enrollment_id: u128)
    requires
        0 <= n <= history.len(),
        registry_of(history.take(n)) is Ok,
        registry_of(history.take(n))->Ok_0.offers.contains_key(enrollment_id),
        registry_of(history.take(n))->Ok_0.offers[enrollment_id].issued is Some,
        registry_of(history) is Ok,
    ensures
        registry_of(history)->Ok_0.offers.contains_key(enrollment_id),
        registry_of(history)->Ok_0.offers[enrollment_id].issued == registry_of(history.take(n))->Ok_0.offers[enrollment_id].issued,
    decreases history.len() - n,
{
    if n == history.len() {
        assert(history.take(n) == history);
    } else {
        let shorter = history.drop_last();
        assert(shorter.take(n) == history.take(n));
        assert(registry_of(shorter) is Ok);
        lemma_issuance_is_permanent(shorter, n, enrollment_id);
        lemma_step_keeps_issuance(registry_of(shorter)->Ok_0, history.last(), enrollment_id);
    }
}

/// Only current-V1 registry streams project: a stream holding any fact of another schema version
/// is an invalid history, whatever else it holds.
pub proof fn lemma_only_current_v1_projects(history: Seq<RegistryEventV1>, i: int)
    requires
        0 <= i < history.len(),
        history[i].schema_version != 1,
    ensures
        registry_of(history) is Err,
{
    let prefix = history.take(i + 1);
    assert(prefix.drop_last() == history.take(i));
    assert(prefix.last() == history[i]);
    lemma_registry_fault_persists(history, i + 1);
}

/// Once a prefix of the registry history is invalid, the whole history is invalid with the
/// same fault.
pub proof fn lemma_registry_fault_persists(history: Seq<RegistryEventV1>, n: int)
    requires
        0 <= n <= history.len(),
        registry_of(history.take(n)) is Err,
    ensures
        registry_of(history) == registry_of(history.take(n)),
    decreases history.len() - n,
{
    if n < history.len() {
        assert(history.take(n + 1).drop_last() == history.take(n));
        lemma_registry_fault_persists(history, n + 1);
    } else {
        assert(history.take(n) == history);
    }
}

} // verus!

verus! {

/// Whether a registry command's refusal check guarantees that the fact it appends is a legal
/// registry transition, and that the fact is the same operation the command identity names.
pub open spec fn mutation_well_formed(
    expected: crate::enrollment::model::RegistryFactV1,
    refusal: spec_fn(RegistryModel) -> Option<crate::enrollment::model::EnrollmentError>,
    fact: spec_fn(RegistryModel) -> crate::enrollment::model::RegistryFactV1,
) -> bool {
    &&& forall|reg: RegistryModel, event_id: u128, at: i64| refusal(reg) is None
        ==> #[trigger] fact_step(reg, event_id, at, fact(reg)) is Ok
    &&& forall|reg: RegistryModel| #[trigger] refusal(reg) is None ==> {
        &&& crate::enrollment::model::fact_schema(fact(reg)) == crate::enrollment::model::fact_schema(expected)
        &&& crate::enrollment::decide::same_operation(fact(reg), expected)
    }
}

} // verus!

verus! {

use crate::enrollment::decide::{
    RegistryMutationDecisionV1, RegistryMutationOutcome, assign_pool_fact, assign_pool_refusal,
    disable_worker_refusal, enable_worker_refusal, first_registry_command, mutation_spec, no_refusal_fact,
    revoke_credential_refusal, revoke_enrollment_refusal,
};
use crate::enrollment::model::{EnrollmentError, RegistryEventV1 as Recorded};

/// The recorded fact that commits an accepted registry command under `event_id`.
pub open spec fn committed_mutation(
    append: crate::enrollment::decide::RegistryAppendV1,
    event_id: u128,
    sequence: u64,
) -> Recorded {
    Recorded {
        event_id,
        parent_event_id: append.parent_event_id,
        sequence,
        command_id: append.command_id,
        schema_version: 1,
        observed_at: append.observed_at,
        payload: RegistryPayloadV1::Fact(append.fact),
    }
}

proof fn lemma_first_registry_command_range(history: Seq<Recorded>, command_id: u128, from: int)
    requires
        0 <= from,
    ensures
        first_registry_command(history, command_id, from) == -1
            || from <= first_registry_command(history, command_id, from) < history.len(),
    decreases history.len() - from,
{
    if from < history.len() {
        lemma_first_registry_command_range(history, command_id, from + 1);
    }
}

proof fn lemma_first_registry_command_after_push(history: Seq<Recorded>, recorded: Recorded, from: int)
    requires
        0 <= from <= history.len(),
        first_registry_command(history, recorded.command_id, from) == -1,
    ensures
        first_registry_command(history.push(recorded), recorded.command_id, from) == history.len(),
    decreases history.len() - from,
{
    if from < history.len() {
        lemma_first_registry_command_after_push(history, recorded, from + 1);
    }
}

/// An accepted registry command keeps the history valid once its fact is recorded, and
/// reissuing the same command afterwards is an idempotent replay naming that fact.
pub proof fn lemma_accepted_mutation_is_recorded_and_replays(
    history: Seq<Recorded>,
    command_id: u128,
    now: i64,
    expected: crate::enrollment::model::RegistryFactV1,
    refusal: spec_fn(RegistryModel) -> Option<EnrollmentError>,
    fact: spec_fn(RegistryModel) -> crate::enrollment::model::RegistryFactV1,
    event_id: u128,
    sequence: u64,
)
    requires
        mutation_well_formed(expected, refusal, fact),
        mutation_spec(history, command_id, now, expected, refusal, fact) is Ok,
        mutation_spec(history, command_id, now, expected, refusal, fact)->Ok_0 is Append,
    ensures
        ({
            let append = mutation_spec(history, command_id, now, expected, refusal, fact)->Ok_0->Append_0;
            let extended = history.push(committed_mutation(append, event_id, sequence));
            &&& registry_of(extended) is Ok
            &&& mutation_spec(extended, command_id, now, expected, refusal, fact) == Ok::<
                RegistryMutationDecisionV1,
                EnrollmentError,
            >(RegistryMutationDecisionV1::Replayed(RegistryMutationOutcome { event_id, was_replay: true }))
        }),
{
    let reg = registry_of(history)->Ok_0;
    let append = mutation_spec(history, command_id, now, expected, refusal, fact)->Ok_0->Append_0;
    let recorded = committed_mutation(append, event_id, sequence);
    let extended = history.push(recorded);
    assert(extended.drop_last() == history);
    assert(refusal(reg) is None);
    assert(fact_step(reg, event_id, now, fact(reg)) is Ok);
    lemma_first_registry_command_range(history, command_id, 0);
    lemma_first_registry_command_after_push(history, recorded, 0);
    assert(extended[history.len() as int] == recorded);
}

/// Revoking a credential is a well-formed registry command.
pub proof fn lemma_revoke_credential_well_formed(credential_id: u128)
    ensures
        mutation_well_formed(
            crate::enrollment::model::RegistryFactV1::CredentialRevoked { credential_id },
            revoke_credential_refusal(credential_id),
            no_refusal_fact(crate::enrollment::model::RegistryFactV1::CredentialRevoked { credential_id }),
        ),
{
}

/// Disabling a worker is a well-formed registry command.
pub proof fn lemma_disable_worker_well_formed(worker_id: u128)
    ensures
        mutation_well_formed(
            crate::enrollment::model::RegistryFactV1::WorkerDisabled { worker_id },
            disable_worker_refusal(worker_id),
            no_refusal_fact(crate::enrollment::model::RegistryFactV1::WorkerDisabled { worker_id }),
        ),
{
}

/// Enabling a worker is a well-formed registry command.
pub proof fn lemma_enable_worker_well_formed(worker_id: u128)
    ensures
        mutation_well_formed(
            crate::enrollment::model::RegistryFactV1::WorkerEnabled { worker_id },
            enable_worker_refusal(worker_id),
            no_refusal_fact(crate::enrollment::model::RegistryFactV1::WorkerEnabled { worker_id }),
        ),
{
}

/// Assigning a disabled worker to another pool is a well-formed registry command.
pub proof fn lemma_assign_pool_well_formed(worker_id: u128, pool: String)
    ensures
        mutation_well_formed(
            crate::enrollment::model::RegistryFactV1::WorkerPoolAssigned { worker_id, previous_pool: pool, pool },
            assign_pool_refusal(worker_id, pool),
            assign_pool_fact(worker_id, pool),
        ),
{
}

/// Revoking an unused enrollment offer is a well-formed registry command.
pub proof fn lemma_revoke_enrollment_well_formed(enrollment_id: u128)
    ensures
        mutation_well_formed(
            crate::enrollment::model::RegistryFactV1::EnrollmentRevoked { enrollment_id },
            revoke_enrollment_refusal(enrollment_id),
            no_refusal_fact(crate::enrollment::model::RegistryFactV1::EnrollmentRevoked { enrollment_id }),
        ),
{
}

} // verus!

verus! {

use crate::enrollment::digest::{canonical_digest_wire, decoded_digest, hex_encoding, lemma_digest_wire_round_trip};
use crate::enrollment::model::{IssuedWorkerCredentialV1, as_digest, wire_digest};
use crate::enrollment::redeem::{EnrollmentRequestV1, RedeemDecisionV1, issued_credential, redeem_spec};

/// The wire text of a digest names that digest.
pub proof fn lemma_wire_digest_of_hex(wire: String, digest: Seq<u8>)
    requires
        digest.len() == 32,
        wire@ == Seq::new(64, |i: int| hex_encoding(digest)[i] as char),
    ensures
        wire_digest(wire) == Some(digest),
{
    lemma_digest_wire_round_trip(digest);
    let bytes = hex_encoding(digest);
    assert(vstd::utf8::is_ascii_chars(wire@)) by {
        assert forall|i: int| 0 <= i < wire@.len() implies '\0' <= #[trigger] wire@[i] <= '\u{7f}' by {
            assert(bytes[i] < 128) by {
                assert(canonical_digest_wire(bytes));
                assert(crate::enrollment::digest::is_hex_digit(bytes[i]));
            }
        }
    }
    vstd::utf8::is_ascii_chars_encode_utf8(wire@);
    assert(vstd::utf8::encode_utf8(wire@) =~= bytes);
}

/// One-shot authority: once a redemption's credential is recorded, redeeming the same authority
/// with the same request again returns exactly that credential, at any later time.
pub proof fn lemma_redemption_replays(
    history: Seq<Recorded>,
    request: EnrollmentRequestV1,
    now: i64,
    later: i64,
    new_worker_id: u128,
    credential_id: u128,
    certificate_chain_pem: String,
    certificate_fingerprint: [u8; 32],
    csr_digest_wire: String,
    event_id: u128,
    sequence: u64,
    command_id: u128,
)
    requires
        redeem_spec(history, request, now) is Ok,
        redeem_spec(history, request, now)->Ok_0 is Issue,
        ({
            let plan = redeem_spec(history, request, now)->Ok_0->Issue_0;
            &&& csr_digest_wire@ == Seq::new(64, |i: int| hex_encoding(plan.csr_digest@)[i] as char)
            &&& registry_of(history.push(Recorded {
                event_id,
                parent_event_id: plan.parent_event_id,
                sequence,
                command_id,
                schema_version: 1,
                observed_at: now,
                payload: RegistryPayloadV1::Fact(crate::enrollment::model::RegistryFactV1::CredentialIssued {
                    enrollment_id: plan.enrollment_id,
                    csr_digest: csr_digest_wire,
                    credential: issued_credential(plan, new_worker_id, credential_id, certificate_chain_pem),
                    certificate_fingerprint,
                    issued_at: now,
                }),
            })) is Ok
        }),
    ensures
        ({
            let plan = redeem_spec(history, request, now)->Ok_0->Issue_0;
            let extended = history.push(Recorded {
                event_id,
                parent_event_id: plan.parent_event_id,
                sequence,
                command_id,
                schema_version: 1,
                observed_at: now,
                payload: RegistryPayloadV1::Fact(crate::enrollment::model::RegistryFactV1::CredentialIssued {
                    enrollment_id: plan.enrollment_id,
                    csr_digest: csr_digest_wire,
                    credential: issued_credential(plan, new_worker_id, credential_id, certificate_chain_pem),
                    certificate_fingerprint,
                    issued_at: now,
                }),
            });
            redeem_spec(extended, request, later) == Ok::<RedeemDecisionV1, EnrollmentError>(
                RedeemDecisionV1::Replayed(issued_credential(plan, new_worker_id, credential_id, certificate_chain_pem)))
        }),
{
    let plan = redeem_spec(history, request, now)->Ok_0->Issue_0;
    let csr = crate::enrollment::digest::sha256_of(vstd::utf8::encode_utf8(request.csr_pem@));
    let reg = registry_of(history)->Ok_0;
    assert(plan.csr_digest == csr);
    crate::enrollment::project::lemma_as_digest(csr);
    lemma_wire_digest_of_hex(csr_digest_wire, plan.csr_digest@);
    let credential = issued_credential(plan, new_worker_id, credential_id, certificate_chain_pem);
    let extended = history.push(Recorded {
        event_id,
        parent_event_id: plan.parent_event_id,
        sequence,
        command_id,
        schema_version: 1,
        observed_at: now,
        payload: RegistryPayloadV1::Fact(crate::enrollment::model::RegistryFactV1::CredentialIssued {
            enrollment_id: plan.enrollment_id,
            csr_digest: csr_digest_wire,
            credential,
            certificate_fingerprint,
            issued_at: now,
        }),
    });
    assert(extended.drop_last() == history);
    let next = registry_of(extended)->Ok_0;
    assert(next.offers[request.enrollment_id].issued is Some);
    assert(next.offers[request.enrollment_id].issued->0.csr_digest == csr);
    assert(next.offers[request.enrollment_id].issued->0.credential == credential);
    assert(next.offers[request.enrollment_id].token_digest == reg.offers[request.enrollment_id].token_digest);
}

} // verus!
