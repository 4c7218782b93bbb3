use vstd::prelude::*;

use vstd::string::StringSliceAdditionalSpecFns;
use vstd::utf8::encode_utf8;

use crate::enrollment::decide::MAX_CSR_PEM_BYTES;
use crate::enrollment::digest::{bytes_ct_eq, digest_wire, hex_encoding, hex_wire, sha256, sha256_of};
use crate::enrollment::model::{
    EnrollmentError, EnrollmentPurposeV1, IssuedWorkerCredentialV1, RegistryEventV1, RegistryFactV1,
    RegistryModel, RequestFault, active_predecessor, as_digest, authorized_at, registry_of,
};
use crate::enrollment::registry::{is_authorized_at, project_history};

verus! {

/// A worker's request to redeem a one-shot enrollment authority for a credential.
#[derive(Debug, PartialEq, Eq)]
pub struct EnrollmentRequestV1 {
    pub schema_version: u32,
    pub enrollment_id: u128,
    pub secret: Vec<u8>,
    pub csr_pem: String,
}

/// The credential an accepted redemption must issue; identities and the certificate are
/// produced by the caller.
#[derive(Debug, PartialEq, Eq)]
pub struct RedeemIssueV1 {
    pub enrollment_id: u128,
    /// The worker a rotation re-credentials; `None` issues a new worker identity.
    pub rotated_worker_id: Option<u128>,
    pub predecessor_credential_id: Option<u128>,
    pub predecessor_retire_at: Option<i64>,
    pub pool: String,
    pub csr_digest: [u8; 32],
    pub parent_event_id: Option<u128>,
    pub expected_revision: Option<u64>,
}

/// What a redemption decided.
#[derive(Debug, PartialEq, Eq)]
pub enum RedeemDecisionV1 {
    /// The same key already redeemed this authority: its credential is returned again.
    Replayed(IssuedWorkerCredentialV1),
    /// A credential must be issued and recorded.
    Issue(RedeemIssueV1),
}

/// What a rotation redemption must freeze about the predecessor, or why it is refused.
pub open spec fn rotation_terms(
    reg: RegistryModel,
    worker_id: u128,
    predecessor_credential_id: u128,
    pool: Seq<char>,
    overlap: Option<u64>,
    now: i64,
) -> Result<Option<i64>, EnrollmentError> {
    if !active_predecessor(reg, predecessor_credential_id, worker_id, pool, now) {
        Err(EnrollmentError::CredentialNotActive)
    } else {
        match overlap {
            None => Ok(None),
            Some(o) => if o > i64::MAX {
                Err(EnrollmentError::InvalidRequest(RequestFault::RotationOverlapTooLarge))
            } else if now + o > i64::MAX {
                Err(EnrollmentError::InvalidRequest(RequestFault::RotationOverlapOverflowsTime))
            } else {
                Ok(Some((now + o) as i64))
            },
        }
    }
}

/// The complete redemption decision: the request shape, the authority's secret and state, and
/// for a rotation the still-active predecessor.
pub open spec fn redeem_spec(history: Seq<RegistryEventV1>, request: EnrollmentRequestV1, now: i64) -> Result<
    RedeemDecisionV1,
    EnrollmentError,
> {
    let csr_bytes = encode_utf8(request.csr_pem@);
    if request.schema_version != 1 {
        Err(EnrollmentError::InvalidRequest(RequestFault::UnsupportedRequestSchema))
    } else if csr_bytes.len() == 0 || csr_bytes.len() > MAX_CSR_PEM_BYTES {
        Err(EnrollmentError::InvalidRequest(RequestFault::CsrEmptyOrTooLarge))
    } else {
        match registry_of(history) {
            Err(f) => Err(EnrollmentError::InvalidHistory(f)),
            Ok(reg) => if !reg.offers.contains_key(request.enrollment_id) {
                Err(EnrollmentError::InvalidAuthority)
            } else {
                let offer = reg.offers[request.enrollment_id];
                let csr = sha256_of(csr_bytes);
                if offer.token_digest != sha256_of(request.secret@) {
                    Err(EnrollmentError::InvalidAuthority)
                } else if offer.issued is Some {
                    if offer.issued->0.csr_digest == csr {
                        Ok(RedeemDecisionV1::Replayed(offer.issued->0.credential))
                    } else {
                        Err(EnrollmentError::AlreadyUsed)
                    }
                } else if offer.revoked {
                    Err(EnrollmentError::Revoked)
                } else if now > offer.expires_at {
                    Err(EnrollmentError::Expired)
                } else {
                    let terms = match offer.purpose {
                        EnrollmentPurposeV1::Bootstrap => Ok((None, None, None)),
                        EnrollmentPurposeV1::Rotation { worker_id, predecessor_credential_id } => match rotation_terms(
                            reg,
                            worker_id,
                            predecessor_credential_id,
                            offer.pool@,
                            offer.rotation_overlap_ms,
                            now,
                        ) {
                            Err(e) => Err(e),
                            Ok(retire_at) => Ok((Some(worker_id), Some(predecessor_credential_id), retire_at)),
                        },
                    };
                    match terms {
                        Err(e) => Err(e),
                        Ok((rotated_worker_id, predecessor_credential_id, predecessor_retire_at)) => Ok(
                            RedeemDecisionV1::Issue(RedeemIssueV1 {
                                enrollment_id: request.enrollment_id,
                                rotated_worker_id,
                                predecessor_credential_id,
                                predecessor_retire_at,
                                pool: offer.pool,
                                csr_digest: csr,
                                parent_event_id: reg.last_event_id,
                                expected_revision: reg.revision,
                            }),
                        ),
                    }
                }
            },
        }
    }
}

/// Two digests are the same exactly when their bytes are.
proof fn lemma_same_digest(a: [u8; 32], b: [u8; 32])
    ensures
        (a@ == b@) == (a == b),
{
    if a@ == b@ {
        assert(a =~= b);
    }
}

/// Decides a redemption of one-shot enrollment authority against the full registry history.
pub fn redeem(history: &Vec<RegistryEventV1>, request: &EnrollmentRequestV1, now: i64) -> (r: Result<
    RedeemDecisionV1,
    EnrollmentError,
>)
    ensures
        r == redeem_spec(history@, *request, now),
{
    if request.schema_version != 1 {
        return Err(EnrollmentError::InvalidRequest(RequestFault::UnsupportedRequestSchema));
    }
    let csr_bytes = request.csr_pem.as_str().as_bytes();
    if csr_bytes.len() == 0 || csr_bytes.len() > MAX_CSR_PEM_BYTES {
        return Err(EnrollmentError::InvalidRequest(RequestFault::CsrEmptyOrTooLarge));
    }
    let registry = match project_history(history, now) {
        Ok(registry) => registry,
        Err(e) => return Err(e),
    };
    let tables = registry.tables();
    let offer = match tables.offers.get(&request.enrollment_id) {
        Some(offer) => offer,
        None => return Err(EnrollmentError::InvalidAuthority),
    };
    let presented = sha256(request.secret.as_slice());
    proof {
        lemma_same_digest(offer.token_digest, presented);
    }
    if !bytes_ct_eq(offer.token_digest.as_slice(), presented.as_slice()) {
        return Err(EnrollmentError::InvalidAuthority);
    }
    let csr_digest = sha256(csr_bytes);
    match &offer.issued {
        Some(issued) => {
            proof {
                lemma_same_digest(issued.csr_digest, csr_digest);
            }
            return if bytes_ct_eq(issued.csr_digest.as_slice(), csr_digest.as_slice()) {
                Ok(RedeemDecisionV1::Replayed(issued.credential.duplicate()))
            } else {
                Err(EnrollmentError::AlreadyUsed)
            };
        },
        None => {},
    }
    if offer.revoked {
        return Err(EnrollmentError::Revoked);
    }
    if now > offer.expires_at {
        return Err(EnrollmentError::Expired);
    }
    let (rotated_worker_id, predecessor_credential_id, predecessor_retire_at) = match offer.purpose {
        EnrollmentPurposeV1::Bootstrap => (None, None, None),
        EnrollmentPurposeV1::Rotation { worker_id, predecessor_credential_id } => {
            if !tables.is_active_predecessor(predecessor_credential_id, worker_id, &offer.pool, now) {
                return Err(EnrollmentError::CredentialNotActive);
            }
            let retire_at = match offer.rotation_overlap_ms {
                None => None,
                Some(o) => {
                    if o > 0x7fff_ffff_ffff_ffffu64 {
                        return Err(EnrollmentError::InvalidRequest(RequestFault::RotationOverlapTooLarge));
                    }
                    let o: i64 = o as i64;
                    match now.checked_add(o) {
                        Some(t) => Some(t),
                        None => return Err(EnrollmentError::InvalidRequest(RequestFault::RotationOverlapOverflowsTime)),
                    }
                },
            };
            (Some(worker_id), Some(predecessor_credential_id), retire_at)
        },
    };
    Ok(RedeemDecisionV1::Issue(RedeemIssueV1 {
        enrollment_id: request.enrollment_id,
        rotated_worker_id,
        predecessor_credential_id,
        predecessor_retire_at,
        pool: offer.pool.clone(),
        csr_digest,
        parent_event_id: registry.last_event_id(),
        expected_revision: registry.revision(),
    }))
}

/// The credential an accepted redemption issues, and the fact that records it.
pub open spec fn issued_credential(
    plan: RedeemIssueV1,
    new_worker_id: u128,
    credential_id: u128,
    certificate_chain_pem: String,
) -> IssuedWorkerCredentialV1 {
    IssuedWorkerCredentialV1 {
        schema_version: 1,
        worker_id: match plan.rotated_worker_id {
            Some(w) => w,
            None => new_worker_id,
        },
        credential_id,
        pool: plan.pool,
        predecessor_credential_id: plan.predecessor_credential_id,
        predecessor_retire_at: plan.predecessor_retire_at,
        certificate_chain_pem,
    }
}

/// Completes an accepted redemption once the caller has minted identities and a certificate:
/// the credential to hand out and the issuance fact to append.
pub fn issue_credential(
    plan: &RedeemIssueV1,
    new_worker_id: u128,
    credential_id: u128,
    certificate_chain_pem: String,
    certificate_fingerprint: [u8; 32],
    now: i64,
) -> (r: (IssuedWorkerCredentialV1, RegistryFactV1))
    ensures
        r.0 == issued_credential(*plan, new_worker_id, credential_id, certificate_chain_pem),
        r.1 matches RegistryFactV1::CredentialIssued { enrollment_id, csr_digest, credential, certificate_fingerprint: fp, issued_at }
            && enrollment_id == plan.enrollment_id && credential == r.0 && fp == certificate_fingerprint
            && issued_at == now && csr_digest@ == Seq::new(64, |i: int| hex_encoding(plan.csr_digest@)[i] as char),
{
    let worker_id = match plan.rotated_worker_id {
        Some(w) => w,
        None => new_worker_id,
    };
    let credential = IssuedWorkerCredentialV1 {
        schema_version: 1,
        worker_id,
        credential_id,
        pool: plan.pool.clone(),
        predecessor_credential_id: plan.predecessor_credential_id,
        predecessor_retire_at: plan.predecessor_retire_at,
        certificate_chain_pem,
    };
    let fact = RegistryFactV1::CredentialIssued {
        enrollment_id: plan.enrollment_id,
        csr_digest: hex_wire(&plan.csr_digest),
        credential: credential.duplicate(),
        certificate_fingerprint,
        issued_at: now,
    };
    (credential, fact)
}

/// The frozen terms of a new enrollment offer.
#[derive(Debug, PartialEq, Eq)]
pub struct OfferPlanV1 {
    pub pool: String,
    pub purpose: EnrollmentPurposeV1,
    pub expires_at: i64,
    pub parent_event_id: Option<u128>,
    pub expected_revision: Option<u64>,
}

/// The expiry of an offer made at `now` with a time-to-live, or why the time-to-live is refused.
pub open spec fn offer_expiry(ttl_ms: u64, now: i64) -> Result<i64, EnrollmentError> {
    if ttl_ms > i64::MAX {
        Err(EnrollmentError::InvalidRequest(RequestFault::TtlTooLarge))
    } else if now + ttl_ms > i64::MAX {
        Err(EnrollmentError::InvalidRequest(RequestFault::TtlOverflowsTime))
    } else {
        Ok((now + ttl_ms) as i64)
    }
}

fn expiry(ttl_ms: u64, now: i64) -> (r: Result<i64, EnrollmentError>)
    ensures
        r == offer_expiry(ttl_ms, now),
{
    if ttl_ms > 0x7fff_ffff_ffff_ffffu64 {
        return Err(EnrollmentError::InvalidRequest(RequestFault::TtlTooLarge));
    }
    let ttl: i64 = ttl_ms as i64;
    match now.checked_add(ttl) {
        Some(t) => Ok(t),
        None => Err(EnrollmentError::InvalidRequest(RequestFault::TtlOverflowsTime)),
    }
}

/// Terms of a bootstrap offer for a new worker in `pool`.
pub open spec fn bootstrap_offer_spec(history: Seq<RegistryEventV1>, pool: String, ttl_ms: u64, now: i64) -> Result<
    OfferPlanV1,
    EnrollmentError,
> {
    match registry_of(history) {
        Err(f) => Err(EnrollmentError::InvalidHistory(f)),
        Ok(reg) => match offer_expiry(ttl_ms, now) {
            Err(e) => Err(e),
            Ok(expires_at) => Ok(OfferPlanV1 {
                pool,
                purpose: EnrollmentPurposeV1::Bootstrap,
                expires_at,
                parent_event_id: reg.last_event_id,
                expected_revision: reg.revision,
            }),
        },
    }
}

/// Freezes the terms of a bootstrap enrollment offer.
pub fn plan_bootstrap_offer(history: &Vec<RegistryEventV1>, pool: String, ttl_ms: u64, now: i64) -> (r: Result<
    OfferPlanV1,
    EnrollmentError,
>)
    ensures
        r == bootstrap_offer_spec(history@, pool, ttl_ms, now),
{
    let registry = match project_history(history, now) {
        Ok(registry) => registry,
        Err(e) => return Err(e),
    };
    let expires_at = match expiry(ttl_ms, now) {
        Ok(t) => t,
        Err(e) => return Err(e),
    };
    Ok(OfferPlanV1 {
        pool,
        purpose: EnrollmentPurposeV1::Bootstrap,
        expires_at,
        parent_event_id: registry.last_event_id(),
        expected_revision: registry.revision(),
    })
}

/// Terms of a rotation offer for the worker of an active, unsuperseded credential.
pub open spec fn rotation_offer_spec(
    history: Seq<RegistryEventV1>,
    predecessor_credential_id: u128,
    ttl_ms: u64,
    now: i64,
) -> Result<OfferPlanV1, EnrollmentError> {
    match registry_of(history) {
        Err(f) => Err(EnrollmentError::InvalidHistory(f)),
        Ok(reg) => if !reg.credentials.contains_key(predecessor_credential_id)
            || !authorized_at(reg.credentials[predecessor_credential_id], reg.disabled_workers, now)
            || reg.credentials[predecessor_credential_id].superseded_by is Some {
            Err(EnrollmentError::CredentialNotActive)
        } else {
            let worker_id = reg.credentials[predecessor_credential_id].enrolled.worker_id;
            if !reg.worker_pools.contains_key(worker_id) {
                Err(EnrollmentError::InvalidHistory(crate::enrollment::model::RegistryFault::WorkerWithoutPoolAssignment))
            } else {
                match offer_expiry(ttl_ms, now) {
                    Err(e) => Err(e),
                    Ok(expires_at) => Ok(OfferPlanV1 {
                        pool: reg.worker_pools[worker_id].pool,
                        purpose: EnrollmentPurposeV1::Rotation { worker_id, predecessor_credential_id },
                        expires_at,
                        parent_event_id: reg.last_event_id,
                        expected_revision: reg.revision,
                    }),
                }
            }
        },
    }
}

/// Freezes the terms of a credential rotation offer.
pub fn plan_rotation_offer(history: &Vec<RegistryEventV1>, predecessor_credential_id: u128, ttl_ms: u64, now: i64) -> (r:
    Result<OfferPlanV1, EnrollmentError>)
    ensures
        r == rotation_offer_spec(history@, predecessor_credential_id, ttl_ms, now),
{
    let registry = match project_history(history, now) {
        Ok(registry) => registry,
        Err(e) => return Err(e),
    };
    let tables = registry.tables();
    let worker_id = match tables.credentials.get(&predecessor_credential_id) {
        Some(record) => {
            if !is_authorized_at(record, &tables.disabled_workers, now) || record.superseded_by.is_some() {
                return Err(EnrollmentError::CredentialNotActive);
            }
            record.enrolled.worker_id
        },
        None => return Err(EnrollmentError::CredentialNotActive),
    };
    let pool = match tables.worker_pools.get(&worker_id) {
        Some(assignment) => assignment.pool.clone(),
        None => return Err(
            EnrollmentError::InvalidHistory(crate::enrollment::model::RegistryFault::WorkerWithoutPoolAssignment),
        ),
    };
    let expires_at = match expiry(ttl_ms, now) {
        Ok(t) => t,
        Err(e) => return Err(e),
    };
    Ok(OfferPlanV1 {
        pool,
        purpose: EnrollmentPurposeV1::Rotation { worker_id, predecessor_credential_id },
        expires_at,
        parent_event_id: registry.last_event_id(),
        expected_revision: registry.revision(),
    })
}

/// The offer fact for a freshly minted identity and secret: only the secret's digest is recorded.
pub fn offer_fact(plan: &OfferPlanV1, enrollment_id: u128, secret: &[u8], rotation_overlap_ms: Option<u64>) -> (r:
    RegistryFactV1)
    ensures
        r matches RegistryFactV1::OfferCreated { enrollment_id: id, token_digest, pool, expires_at, purpose, rotation_overlap_ms: o }
            && id == enrollment_id && pool == plan.pool && expires_at == plan.expires_at && purpose == plan.purpose
            && o == (if plan.purpose is Bootstrap { None } else { rotation_overlap_ms })
            && token_digest@ == Seq::new(64, |i: int| hex_encoding(sha256_of(secret@)@)[i] as char),
{
    let overlap = match plan.purpose {
        EnrollmentPurposeV1::Bootstrap => None,
        EnrollmentPurposeV1::Rotation { .. } => rotation_overlap_ms,
    };
    RegistryFactV1::OfferCreated {
        enrollment_id,
        token_digest: digest_wire(secret),
        pool: plan.pool.clone(),
        expires_at: plan.expires_at,
        purpose: plan.purpose,
        rotation_overlap_ms: overlap,
    }
}

/// How long before issuance a worker certificate already counts as valid, to absorb clock skew.
pub const CERTIFICATE_BACKDATE_MS: i64 = 60_000;

/// The validity window of a worker certificate issued at `now`: from one backdating interval
/// before issuance (clamped at the earliest representable instant) until `now` plus the
/// configured validity, or an issuance failure when that end is not representable.
pub open spec fn validity_window(now: i64, validity_ms: u64) -> Result<(i64, i64), EnrollmentError> {
    if validity_ms > i64::MAX || now + validity_ms > i64::MAX {
        Err(EnrollmentError::Issuance)
    } else {
        let not_before = if now - CERTIFICATE_BACKDATE_MS < i64::MIN { i64::MIN } else { (now - CERTIFICATE_BACKDATE_MS) as i64 };
        Ok((not_before, (now + validity_ms) as i64))
    }
}

/// The `not_before` and `not_after` instants of a worker certificate issued at `now`.
pub fn credential_validity_window(now: i64, validity_ms: u64) -> (r: Result<(i64, i64), EnrollmentError>)
    ensures
        r == validity_window(now, validity_ms),
{
    if validity_ms > 0x7fff_ffff_ffff_ffffu64 {
        return Err(EnrollmentError::Issuance);
    }
    let validity: i64 = validity_ms as i64;
    let not_after = match now.checked_add(validity) {
        Some(t) => t,
        None => return Err(EnrollmentError::Issuance),
    };
    let not_before = if now < i64::MIN + CERTIFICATE_BACKDATE_MS {
        i64::MIN
    } else {
        now - CERTIFICATE_BACKDATE_MS
    };
    Ok((not_before, not_after))
}

/// A rotation is only ever issued against a live predecessor: when a redemption plans a
/// credential that succeeds a predecessor, that predecessor is at `now` a retained, unrevoked,
/// unsuperseded credential of the rotated worker, the worker is enabled and assigned to the
/// offer's pool, and the predecessor is not past its retirement boundary. Any issued plan also
/// needs the offer's own secret and an offer that is unused, unrevoked and unexpired; a bootstrap
/// plans no predecessor and no rotated worker.
pub proof fn lemma_rotation_needs_an_active_predecessor(
    history: Seq<RegistryEventV1>,
    request: EnrollmentRequestV1,
    now: i64,
)
    ensures
        redeem_spec(history, request, now) matches Ok(RedeemDecisionV1::Issue(issue)) ==> registry_of(history) is Ok && ({
            let reg = registry_of(history)->Ok_0;
            let offer = reg.offers[request.enrollment_id];
            &&& reg.offers.contains_key(request.enrollment_id)
            &&& offer.token_digest == sha256_of(request.secret@)
            &&& offer.issued is None
            &&& !offer.revoked
            &&& now <= offer.expires_at
            &&& issue.enrollment_id == request.enrollment_id
            &&& issue.pool == offer.pool
            &&& (offer.purpose matches EnrollmentPurposeV1::Rotation { worker_id, predecessor_credential_id }
                ==> issue.predecessor_credential_id == Some(predecessor_credential_id)
                && issue.rotated_worker_id == Some(worker_id))
            &&& (offer.purpose is Bootstrap ==> issue.predecessor_credential_id is None)
            &&& match issue.predecessor_credential_id {
                None => issue.rotated_worker_id is None && issue.predecessor_retire_at is None,
                Some(p) => {
                    let record = reg.credentials[p];
                    let worker = record.enrolled.worker_id;
                    &&& reg.credentials.contains_key(p)
                    &&& issue.rotated_worker_id == Some(worker)
                    &&& !record.revoked
                    &&& record.superseded_by is None
                    &&& !reg.disabled_workers.contains(worker)
                    &&& (record.retire_at matches Some(t) ==> now < t)
                    &&& reg.worker_pools.contains_key(worker)
                    &&& reg.worker_pools[worker].pool@ == issue.pool@
                },
            }
        }),
{
}

} // verus!
