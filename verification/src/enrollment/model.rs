use vstd::prelude::*;

use vstd::utf8::encode_utf8;

use crate::enrollment::digest::{canonical_digest_wire, decoded_digest};

verus! {

/// Why an enrollment offer exists: a new worker, or a credential rotation for an existing one.
#[derive(Clone, Copy, Debug, PartialEq, Eq, Structural)]
pub enum EnrollmentPurposeV1 {
    Bootstrap,
    Rotation { worker_id: u128, predecessor_credential_id: u128 },
}

/// One credential issued to a worker through an enrollment offer.
#[derive(Debug, PartialEq, Eq)]
pub struct IssuedWorkerCredentialV1 {
    pub schema_version: u32,
    pub worker_id: u128,
    pub credential_id: u128,
    pub pool: String,
    pub predecessor_credential_id: Option<u128>,
    pub predecessor_retire_at: Option<i64>,
    pub certificate_chain_pem: String,
}

impl IssuedWorkerCredentialV1 {
    /// An identical credential.
    pub fn duplicate(&self) -> (r: Self)
        ensures
            r == *self,
    {
        IssuedWorkerCredentialV1 {
            schema_version: self.schema_version,
            worker_id: self.worker_id,
            credential_id: self.credential_id,
            pool: self.pool.clone(),
            predecessor_credential_id: self.predecessor_credential_id,
            predecessor_retire_at: self.predecessor_retire_at,
            certificate_chain_pem: self.certificate_chain_pem.clone(),
        }
    }
}

/// The kinds of registry lifecycle fact.
#[derive(Clone, Copy, Debug, PartialEq, Eq, Structural)]
pub enum RegistrySchemaV1 {
    OfferCreated,
    CredentialIssued,
    CredentialRevoked,
    WorkerDisabled,
    WorkerEnabled,
    WorkerPoolAssigned,
    EnrollmentRevoked,
}

/// The decoded body of one registry lifecycle fact.
#[derive(Debug, PartialEq, Eq)]
pub enum RegistryFactV1 {
    OfferCreated {
        enrollment_id: u128,
        token_digest: String,
        pool: String,
        expires_at: i64,
        purpose: EnrollmentPurposeV1,
        rotation_overlap_ms: Option<u64>,
    },
    CredentialIssued {
        enrollment_id: u128,
        csr_digest: String,
        credential: IssuedWorkerCredentialV1,
        certificate_fingerprint: [u8; 32],
        issued_at: i64,
    },
    CredentialRevoked { credential_id: u128 },
    WorkerDisabled { worker_id: u128 },
    WorkerEnabled { worker_id: u128 },
    WorkerPoolAssigned { worker_id: u128, previous_pool: String, pool: String },
    EnrollmentRevoked { enrollment_id: u128 },
}

/// The payload of one recorded fact as read back from the stream.
#[derive(Debug, PartialEq, Eq)]
pub enum RegistryPayloadV1 {
    /// A known fact whose payload decoded.
    Fact(RegistryFactV1),
    /// A known schema whose payload did not decode.
    Undecodable(RegistrySchemaV1),
    /// A schema name the registry does not know.
    Unsupported,
}

/// One fact of the registry stream, with its envelope.
#[derive(Debug, PartialEq, Eq)]
pub struct RegistryEventV1 {
    pub event_id: u128,
    pub parent_event_id: Option<u128>,
    pub sequence: u64,
    pub command_id: u128,
    pub schema_version: u32,
    pub observed_at: i64,
    pub payload: RegistryPayloadV1,
}

/// The precise way a registry history is invalid.
#[derive(Clone, Copy, Debug, PartialEq, Eq, Structural)]
pub enum RegistryFault {
    CausalParentDiffers,
    UnsupportedEvent,
    SchemaVersionUnsupported(RegistrySchemaV1),
    PayloadUndecodable(RegistrySchemaV1),
    BootstrapOfferHasOverlap,
    RotationOfferWithoutActivePredecessor,
    DigestNotCanonical,
    EnrollmentOfferedTwice,
    CredentialPrecedesOffer,
    CredentialDuplicatesOrChangesPool,
    CredentialSchemaUnsupported,
    BootstrapCredentialCitesPredecessor,
    RotatedCredentialContradictsOffer,
    RotationOverlapExceedsTimeRange,
    RotationOverlapOverflowsTime,
    RetirementDiffersFromOverlap,
    RotationIssuanceWithoutActivePredecessor,
    RetirementNotAfterIssuance,
    BootstrapReusedWorker,
    RotatedCredentialDiffersFromPool,
    CredentialIssuedTwice,
    FingerprintIssuedTwice,
    UnknownCredentialRevoked,
    CredentialRevokedTwice,
    UnknownOrDisabledWorkerDisabled,
    UnknownOrEnabledWorkerEnabled,
    UnknownWorkerPoolAssigned,
    PoolAssignmentContradictsLifecycle,
    UnknownEnrollmentRevoked,
    UsedOrRevokedEnrollmentRevoked,
    CredentialLostProvenance,
    CredentialWithoutPoolHistory,
    WorkerWithoutPoolAssignment,
}

/// The precise way an enrollment request or operator request is invalid.
#[derive(Clone, Copy, Debug, PartialEq, Eq, Structural)]
pub enum RequestFault {
    UnsupportedRequestSchema,
    CsrEmptyOrTooLarge,
    TtlTooLarge,
    TtlOverflowsTime,
    RotationOverlapTooLarge,
    RotationOverlapOverflowsTime,
}

/// Why an enrollment registry operation was refused.
#[derive(Clone, Copy, Debug, PartialEq, Eq, Structural)]
pub enum EnrollmentError {
    InvalidHistory(RegistryFault),
    InvalidAuthority,
    InvalidRequest(RequestFault),
    Expired,
    AlreadyUsed,
    Revoked,
    CredentialNotActive,
    WorkerNotActive,
    WorkerNotDisabled,
    WorkerPoolUnchanged,
    EnrollmentAlreadyIssued,
    CommandConflict,
    /// The registry stream could not be read or appended.
    Storage,
    /// A credential certificate could not be issued.
    Issuance,
}

/// The issuance recorded against an offer.
#[derive(Debug, PartialEq, Eq)]
pub struct IssuedV1 {
    pub csr_digest: [u8; 32],
    pub credential: IssuedWorkerCredentialV1,
}

/// One retained enrollment offer.
#[derive(Debug, PartialEq, Eq)]
pub struct OfferV1 {
    pub token_digest: [u8; 32],
    pub pool: String,
    pub expires_at: i64,
    pub purpose: EnrollmentPurposeV1,
    pub rotation_overlap_ms: Option<u64>,
    pub issued: Option<IssuedV1>,
    pub revoked: bool,
}

/// The worker a credential authenticates, with its scheduling pool.
#[derive(Debug, PartialEq, Eq)]
pub struct EnrolledWorker {
    pub worker_id: u128,
    pub credential_id: u128,
    pub pool: String,
    pub pool_assignment_revision: u128,
}

impl EnrolledWorker {
    /// An identical worker record.
    pub fn duplicate(&self) -> (r: Self)
        ensures
            r == *self,
    {
        EnrolledWorker {
            worker_id: self.worker_id,
            credential_id: self.credential_id,
            pool: self.pool.clone(),
            pool_assignment_revision: self.pool_assignment_revision,
        }
    }
}

/// One retained credential.
#[derive(Debug, PartialEq, Eq)]
pub struct CredentialRecordV1 {
    pub fingerprint: [u8; 32],
    pub enrolled: EnrolledWorker,
    /// The enrollment offer the credential was issued through.
    pub enrollment_id: u128,
    pub revoked: bool,
    pub superseded_by: Option<u128>,
    pub retire_at: Option<i64>,
    pub predecessor: Option<u128>,
}

/// The controller-authorized pool of one worker and the fact that established it.
#[derive(Debug, PartialEq, Eq)]
pub struct WorkerPoolAssignmentV1 {
    pub pool: String,
    pub authority_revision: u128,
}

/// The abstract registry: every retained offer, credential and worker assignment.
#[verifier::ext_equal]
pub struct RegistryModel {
    pub offers: Map<u128, OfferV1>,
    pub credentials: Map<u128, CredentialRecordV1>,
    pub worker_pools: Map<u128, WorkerPoolAssignmentV1>,
    pub disabled_workers: Set<u128>,
    pub revision: Option<u64>,
    pub last_event_id: Option<u128>,
}

/// The registry before any fact.
pub open spec fn empty_registry() -> RegistryModel {
    RegistryModel {
        offers: Map::empty(),
        credentials: Map::empty(),
        worker_pools: Map::empty(),
        disabled_workers: Set::empty(),
        revision: None,
        last_event_id: None,
    }
}

/// Whether a credential authorizes its worker at `now`: not revoked, worker not disabled, and
/// not past its retirement boundary.
pub open spec fn authorized_at(record: CredentialRecordV1, disabled: Set<u128>, now: i64) -> bool {
    &&& !record.revoked
    &&& !disabled.contains(record.enrolled.worker_id)
    &&& match record.retire_at {
        None => true,
        Some(retire_at) => now < retire_at,
    }
}

/// Whether `credential_id` is an active, unsuperseded credential of `worker_id` whose worker is
/// currently assigned to `pool`.
pub open spec fn active_predecessor(
    reg: RegistryModel,
    credential_id: u128,
    worker_id: u128,
    pool: Seq<char>,
    at: i64,
) -> bool {
    &&& reg.credentials.contains_key(credential_id)
    &&& reg.credentials[credential_id].enrolled.worker_id == worker_id
    &&& reg.worker_pools.contains_key(worker_id)
    &&& reg.worker_pools[worker_id].pool@ == pool
    &&& authorized_at(reg.credentials[credential_id], reg.disabled_workers, at)
    &&& reg.credentials[credential_id].superseded_by is None
}

/// The digest denoted by canonical wire text.
pub open spec fn wire_digest(wire: String) -> Option<Seq<u8>> {
    if canonical_digest_wire(encode_utf8(wire@)) {
        Some(decoded_digest(encode_utf8(wire@)))
    } else {
        None
    }
}

/// The 32-byte digest with the given bytes.
pub open spec fn as_digest(bytes: Seq<u8>) -> [u8; 32] {
    choose|d: [u8; 32]| d@ == bytes
}

/// Retirement boundary of a rotated predecessor: the rotation time plus the frozen overlap.
pub open spec fn retirement_after(at: i64, overlap: Option<u64>) -> Result<Option<i64>, RegistryFault> {
    match overlap {
        None => Ok(None),
        Some(o) => if o > i64::MAX {
            Err(RegistryFault::RotationOverlapExceedsTimeRange)
        } else if at + o > i64::MAX {
            Err(RegistryFault::RotationOverlapOverflowsTime)
        } else {
            Ok(Some((at + o) as i64))
        },
    }
}

/// Whether any retained credential other than `credential_id` carries `fingerprint`.
pub open spec fn fingerprint_taken(
    credentials: Map<u128, CredentialRecordV1>,
    credential_id: u128,
    fingerprint: [u8; 32],
) -> bool {
    exists|k: u128| #[trigger] credentials.contains_key(k)
        && credentials[k].enrolled.credential_id != credential_id
        && credentials[k].fingerprint == fingerprint
}

/// The registry after an offer fact.
pub open spec fn offer_step(
    reg: RegistryModel,
    observed_at: i64,
    enrollment_id: u128,
    token_digest: String,
    pool: String,
    expires_at: i64,
    purpose: EnrollmentPurposeV1,
    rotation_overlap_ms: Option<u64>,
) -> Result<RegistryModel, RegistryFault> {
    if purpose is Bootstrap && rotation_overlap_ms is Some {
        Err(RegistryFault::BootstrapOfferHasOverlap)
    } else if purpose matches EnrollmentPurposeV1::Rotation { worker_id, predecessor_credential_id }
        && !active_predecessor(reg, predecessor_credential_id, worker_id, pool@, observed_at) {
        Err(RegistryFault::RotationOfferWithoutActivePredecessor)
    } else {
        match wire_digest(token_digest) {
            None => Err(RegistryFault::DigestNotCanonical),
            Some(digest) => if reg.offers.contains_key(enrollment_id) {
                Err(RegistryFault::EnrollmentOfferedTwice)
            } else {
                Ok(RegistryModel {
                    offers: reg.offers.insert(enrollment_id, OfferV1 {
                        token_digest: as_digest(digest),
                        pool,
                        expires_at,
                        purpose,
                        rotation_overlap_ms,
                        issued: None,
                        revoked: false,
                    }),
                    ..reg
                })
            },
        }
    }
}

/// The rotation predecessor an issuance names, after checking it against its offer, or why the
/// issuance contradicts the offer.
pub open spec fn issuance_predecessor(
    reg: RegistryModel,
    offer: OfferV1,
    credential: IssuedWorkerCredentialV1,
    issued_at: i64,
) -> Result<Option<u128>, RegistryFault> {
    match offer.purpose {
        EnrollmentPurposeV1::Bootstrap => if credential.predecessor_credential_id is Some
            || credential.predecessor_retire_at is Some {
            Err(RegistryFault::BootstrapCredentialCitesPredecessor)
        } else {
            Ok(None)
        },
        EnrollmentPurposeV1::Rotation { worker_id, predecessor_credential_id } => {
            if credential.worker_id != worker_id
                || credential.predecessor_credential_id != Some(predecessor_credential_id)
                || (offer.rotation_overlap_ms is Some) != (credential.predecessor_retire_at is Some) {
                Err(RegistryFault::RotatedCredentialContradictsOffer)
            } else {
                match retirement_after(issued_at, offer.rotation_overlap_ms) {
                    Err(f) => Err(f),
                    Ok(expected) => if credential.predecessor_retire_at != expected {
                        Err(RegistryFault::RetirementDiffersFromOverlap)
                    } else if !active_predecessor(reg, predecessor_credential_id, worker_id, offer.pool@, issued_at) {
                        Err(RegistryFault::RotationIssuanceWithoutActivePredecessor)
                    } else if credential.predecessor_retire_at matches Some(r) && r <= issued_at {
                        Err(RegistryFault::RetirementNotAfterIssuance)
                    } else {
                        Ok(Some(predecessor_credential_id))
                    },
                }
            }
        },
    }
}

/// The registry after an issuance fact recorded as `event_id` at `issued_at`.
pub open spec fn issuance_step(
    reg: RegistryModel,
    event_id: u128,
    issued_at: i64,
    enrollment_id: u128,
    csr_digest: String,
    credential: IssuedWorkerCredentialV1,
    fingerprint: [u8; 32],
) -> Result<RegistryModel, RegistryFault> {
    match wire_digest(csr_digest) {
        None => Err(RegistryFault::DigestNotCanonical),
        Some(csr) => if !reg.offers.contains_key(enrollment_id) {
            Err(RegistryFault::CredentialPrecedesOffer)
        } else {
            let offer = reg.offers[enrollment_id];
            if offer.issued is Some || offer.revoked || offer.pool@ != credential.pool@ {
                Err(RegistryFault::CredentialDuplicatesOrChangesPool)
            } else if credential.schema_version != 1 {
                Err(RegistryFault::CredentialSchemaUnsupported)
            } else {
                match issuance_predecessor(reg, offer, credential, issued_at) {
                    Err(f) => Err(f),
                    Ok(predecessor) => {
                        let worker_id = credential.worker_id;
                        if predecessor is None && reg.worker_pools.contains_key(worker_id) {
                            Err(RegistryFault::BootstrapReusedWorker)
                        } else if predecessor is Some && (!reg.worker_pools.contains_key(worker_id)
                            || reg.worker_pools[worker_id].pool@ != credential.pool@) {
                            Err(RegistryFault::RotatedCredentialDiffersFromPool)
                        } else {
                            let pools = if predecessor is None {
                                reg.worker_pools.insert(
                                    worker_id,
                                    WorkerPoolAssignmentV1 { pool: credential.pool, authority_revision: event_id },
                                )
                            } else {
                                reg.worker_pools
                            };
                            let credential_id = credential.credential_id;
                            if reg.credentials.contains_key(credential_id) {
                                Err(RegistryFault::CredentialIssuedTwice)
                            } else {
                                let record = CredentialRecordV1 {
                                    fingerprint,
                                    enrolled: EnrolledWorker {
                                        worker_id,
                                        credential_id,
                                        pool: credential.pool,
                                        pool_assignment_revision: pools[worker_id].authority_revision,
                                    },
                                    enrollment_id,
                                    revoked: false,
                                    superseded_by: None,
                                    retire_at: None,
                                    predecessor,
                                };
                                let with_record = reg.credentials.insert(credential_id, record);
                                if fingerprint_taken(with_record, credential_id, fingerprint) {
                                    Err(RegistryFault::FingerprintIssuedTwice)
                                } else {
                                    let credentials = match predecessor {
                                        None => with_record,
                                        Some(p) => with_record.insert(p, CredentialRecordV1 {
                                            superseded_by: Some(credential_id),
                                            retire_at: credential.predecessor_retire_at,
                                            ..with_record[p]
                                        }),
                                    };
                                    Ok(RegistryModel {
                                        offers: reg.offers.insert(enrollment_id, OfferV1 {
                                            issued: Some(IssuedV1 {
                                                csr_digest: as_digest(csr),
                                                credential,
                                            }),
                                            ..offer
                                        }),
                                        credentials,
                                        worker_pools: pools,
                                        ..reg
                                    })
                                }
                            }
                        }
                    },
                }
            }
        },
    }
}

/// The predecessor whose rotation a revocation rolls back: one the revoked credential superseded
/// before its retirement boundary.
pub open spec fn rollback_predecessor(reg: RegistryModel, credential_id: u128, revoked_at: i64) -> Option<u128> {
    match reg.credentials[credential_id].predecessor {
        None => None,
        Some(p) => if reg.credentials.contains_key(p) && reg.credentials[p].superseded_by == Some(credential_id)
            && match reg.credentials[p].retire_at {
            None => true,
            Some(r) => revoked_at < r,
        } {
            Some(p)
        } else {
            None
        },
    }
}

/// The registry after a credential revocation recorded at `revoked_at`.
pub open spec fn revocation_step(reg: RegistryModel, revoked_at: i64, credential_id: u128) -> Result<
    RegistryModel,
    RegistryFault,
> {
    if !reg.credentials.contains_key(credential_id) {
        Err(RegistryFault::UnknownCredentialRevoked)
    } else if reg.credentials[credential_id].revoked {
        Err(RegistryFault::CredentialRevokedTwice)
    } else {
        let rollback = rollback_predecessor(reg, credential_id, revoked_at);
        let revoked = reg.credentials.insert(
            credential_id,
            CredentialRecordV1 { revoked: true, ..reg.credentials[credential_id] },
        );
        let credentials = match rollback {
            None => revoked,
            Some(p) => revoked.insert(p, CredentialRecordV1 { superseded_by: None, retire_at: None, ..revoked[p] }),
        };
        Ok(RegistryModel { credentials, ..reg })
    }
}

/// The registry after one decoded fact recorded as `event_id` at `observed_at`.
pub open spec fn fact_step(reg: RegistryModel, event_id: u128, observed_at: i64, fact: RegistryFactV1) -> Result<
    RegistryModel,
    RegistryFault,
> {
    match fact {
        RegistryFactV1::OfferCreated { enrollment_id, token_digest, pool, expires_at, purpose, rotation_overlap_ms } =>
            offer_step(reg, observed_at, enrollment_id, token_digest, pool, expires_at, purpose, rotation_overlap_ms),
        RegistryFactV1::CredentialIssued { enrollment_id, csr_digest, credential, certificate_fingerprint, .. } =>
            issuance_step(reg, event_id, observed_at, enrollment_id, csr_digest, credential, certificate_fingerprint),
        RegistryFactV1::CredentialRevoked { credential_id } => revocation_step(reg, observed_at, credential_id),
        RegistryFactV1::WorkerDisabled { worker_id } => if !reg.worker_pools.contains_key(worker_id)
            || reg.disabled_workers.contains(worker_id) {
            Err(RegistryFault::UnknownOrDisabledWorkerDisabled)
        } else {
            Ok(RegistryModel { disabled_workers: reg.disabled_workers.insert(worker_id), ..reg })
        },
        RegistryFactV1::WorkerEnabled { worker_id } => if !reg.disabled_workers.contains(worker_id) {
            Err(RegistryFault::UnknownOrEnabledWorkerEnabled)
        } else {
            Ok(RegistryModel { disabled_workers: reg.disabled_workers.remove(worker_id), ..reg })
        },
        RegistryFactV1::WorkerPoolAssigned { worker_id, previous_pool, pool } => if !reg.worker_pools.contains_key(worker_id) {
            Err(RegistryFault::UnknownWorkerPoolAssigned)
        } else if !reg.disabled_workers.contains(worker_id) || reg.worker_pools[worker_id].pool@ != previous_pool@
            || reg.worker_pools[worker_id].pool@ == pool@ {
            Err(RegistryFault::PoolAssignmentContradictsLifecycle)
        } else {
            Ok(RegistryModel {
                worker_pools: reg.worker_pools.insert(
                    worker_id,
                    WorkerPoolAssignmentV1 { pool, authority_revision: event_id },
                ),
                ..reg
            })
        },
        RegistryFactV1::EnrollmentRevoked { enrollment_id } => if !reg.offers.contains_key(enrollment_id) {
            Err(RegistryFault::UnknownEnrollmentRevoked)
        } else if reg.offers[enrollment_id].revoked || reg.offers[enrollment_id].issued is Some {
            Err(RegistryFault::UsedOrRevokedEnrollmentRevoked)
        } else {
            Ok(RegistryModel {
                offers: reg.offers.insert(enrollment_id, OfferV1 { revoked: true, ..reg.offers[enrollment_id] }),
                ..reg
            })
        },
    }
}

/// The schema of a decoded fact.
pub open spec fn fact_schema(fact: RegistryFactV1) -> RegistrySchemaV1 {
    match fact {
        RegistryFactV1::OfferCreated { .. } => RegistrySchemaV1::OfferCreated,
        RegistryFactV1::CredentialIssued { .. } => RegistrySchemaV1::CredentialIssued,
        RegistryFactV1::CredentialRevoked { .. } => RegistrySchemaV1::CredentialRevoked,
        RegistryFactV1::WorkerDisabled { .. } => RegistrySchemaV1::WorkerDisabled,
        RegistryFactV1::WorkerEnabled { .. } => RegistrySchemaV1::WorkerEnabled,
        RegistryFactV1::WorkerPoolAssigned { .. } => RegistrySchemaV1::WorkerPoolAssigned,
        RegistryFactV1::EnrollmentRevoked { .. } => RegistrySchemaV1::EnrollmentRevoked,
    }
}

/// The registry after one recorded event: its causal parent must be the current head, its
/// schema known and current-V1, its payload decodable and legal.
pub open spec fn registry_step(reg: RegistryModel, event: RegistryEventV1) -> Result<RegistryModel, RegistryFault> {
    if event.parent_event_id != reg.last_event_id {
        Err(RegistryFault::CausalParentDiffers)
    } else {
        let next = match event.payload {
            RegistryPayloadV1::Unsupported => Err(RegistryFault::UnsupportedEvent),
            RegistryPayloadV1::Undecodable(schema) => if event.schema_version != 1 {
                Err(RegistryFault::SchemaVersionUnsupported(schema))
            } else {
                Err(RegistryFault::PayloadUndecodable(schema))
            },
            RegistryPayloadV1::Fact(fact) => if event.schema_version != 1 {
                Err(RegistryFault::SchemaVersionUnsupported(fact_schema(fact)))
            } else {
                fact_step(reg, event.event_id, event.observed_at, fact)
            },
        };
        match next {
            Err(f) => Err(f),
            Ok(r) => Ok(RegistryModel { revision: Some(event.sequence), last_event_id: Some(event.event_id), ..r }),
        }
    }
}

/// The registry projected from a full history, or the first fault in it.
pub open spec fn registry_of(history: Seq<RegistryEventV1>) -> Result<RegistryModel, RegistryFault>
    decreases history.len(),
{
    if history.len() == 0 {
        Ok(empty_registry())
    } else {
        match registry_of(history.drop_last()) {
            Err(f) => Err(f),
            Ok(reg) => registry_step(reg, history.last()),
        }
    }
}

} // verus!

verus! {

/// What every registry projected from a valid history keeps: each credential is keyed by its
/// own identity, its enrollment offer records its issuance, its worker has a pool assignment,
/// no two credentials share a certificate fingerprint, every disabled worker has a pool
/// assignment, and the registry is finite.
pub open spec fn registry_invariant(reg: RegistryModel) -> bool {
    &&& forall|k: u128| #[trigger] reg.credentials.contains_key(k) ==> reg.credentials[k].enrolled.credential_id == k
    &&& forall|k: u128| #[trigger] reg.credentials.contains_key(k) ==> {
        let e = reg.credentials[k].enrollment_id;
        &&& reg.offers.contains_key(e)
        &&& reg.offers[e].issued is Some
        &&& reg.offers[e].issued->0.credential.credential_id == k
    }
    &&& forall|k: u128| #[trigger] reg.credentials.contains_key(k)
        ==> reg.worker_pools.contains_key(reg.credentials[k].enrolled.worker_id)
    &&& forall|k1: u128, k2: u128| #[trigger] reg.credentials.contains_key(k1) && #[trigger] reg.credentials.contains_key(k2)
        && k1 != k2 ==> reg.credentials[k1].fingerprint != reg.credentials[k2].fingerprint
    &&& forall|w: u128| #[trigger] reg.disabled_workers.contains(w) ==> reg.worker_pools.contains_key(w)
    &&& reg.offers.dom().finite()
    &&& reg.credentials.dom().finite()
    &&& reg.worker_pools.dom().finite()
    &&& reg.disabled_workers.finite()
}

} // verus!
