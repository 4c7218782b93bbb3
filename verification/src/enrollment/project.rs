use vstd::prelude::*;

use std::collections::{BTreeMap, BTreeSet};
use vstd::std_specs::iter::IteratorSpec;

use crate::enrollment::digest::parse_digest;
use crate::enrollment::model::{
    CredentialRecordV1, EnrolledWorker, EnrollmentPurposeV1, IssuedV1, IssuedWorkerCredentialV1,
    OfferV1, RegistryFactV1, RegistryFault, RegistryModel, RegistryPayloadV1, RegistryEventV1,
    RegistrySchemaV1, WorkerPoolAssignmentV1, active_predecessor, as_digest, authorized_at,
    fact_schema, fingerprint_taken, issuance_predecessor, issuance_step, offer_step, registry_step,
    retirement_after, revocation_step, rollback_predecessor, fact_step, wire_digest,
};

verus! {

/// Registry tables while the history is being replayed.
pub(crate) struct RegistryTables {
    pub(crate) offers: BTreeMap<u128, OfferV1>,
    pub(crate) credentials: BTreeMap<u128, CredentialRecordV1>,
    pub(crate) worker_pools: BTreeMap<u128, WorkerPoolAssignmentV1>,
    pub(crate) disabled_workers: BTreeSet<u128>,
    pub(crate) revision: Option<u64>,
    pub(crate) last_event_id: Option<u128>,
}

impl RegistryTables {
    pub(crate) open spec fn model(&self) -> RegistryModel {
        RegistryModel {
            offers: self.offers@,
            credentials: self.credentials@,
            worker_pools: self.worker_pools@,
            disabled_workers: self.disabled_workers@,
            revision: self.revision,
            last_event_id: self.last_event_id,
        }
    }
}

/// The 32-byte digest whose bytes are those of `a` is `a` itself.
pub proof fn lemma_as_digest(a: [u8; 32])
    ensures
        as_digest(a@) == a,
{
    assert(exists|d: [u8; 32]| #[trigger] d@ == a@) by {
        assert(a@ == a@);
    }
    let d = as_digest(a@);
    assert(d =~= a);
}

/// Whether two 32-byte values are identical.
pub fn same_bytes(a: &[u8; 32], b: &[u8; 32]) -> (r: bool)
    ensures
        r == (*a == *b),
{
    let mut i: usize = 0;
    while i < 32
        invariant
            i <= 32,
            forall|j: int| 0 <= j < i ==> a@[j] == b@[j],
        decreases 32 - i,
    {
        if a[i] != b[i] {
            return false;
        }
        i = i + 1;
    }
    assert(*a =~= *b);
    true
}

/// The frozen retirement boundary of a rotated predecessor (see `retirement_after`).
pub fn retirement_boundary(at: i64, overlap: Option<u64>) -> (r: Result<Option<i64>, RegistryFault>)
    ensures
        r == retirement_after(at, overlap),
{
    match overlap {
        None => Ok(None),
        Some(o) => {
            if o > 0x7fff_ffff_ffff_ffffu64 {
                Err(RegistryFault::RotationOverlapExceedsTimeRange)
            } else {
                let o: i64 = o as i64;
                match at.checked_add(o) {
                    Some(t) => Ok(Some(t)),
                    None => Err(RegistryFault::RotationOverlapOverflowsTime),
                }
            }
        },
    }
}

impl RegistryTables {
    pub(crate) fn new() -> (r: Self)
        ensures
            r.model() == crate::enrollment::model::empty_registry(),
    {
        RegistryTables {
            offers: BTreeMap::new(),
            credentials: BTreeMap::new(),
            worker_pools: BTreeMap::new(),
            disabled_workers: BTreeSet::new(),
            revision: None,
            last_event_id: None,
        }
    }

    /// Whether a credential is an active, unsuperseded predecessor (see `active_predecessor`).
    pub(crate) fn is_active_predecessor(&self, credential_id: u128, worker_id: u128, pool: &String, at: i64) -> (r: bool)
        ensures
            r == active_predecessor(self.model(), credential_id, worker_id, pool@, at),
    {
        match self.credentials.get(&credential_id) {
            None => false,
            Some(record) => {
                if record.enrolled.worker_id != worker_id {
                    return false;
                }
                let pool_matches = match self.worker_pools.get(&worker_id) {
                    Some(assignment) => assignment.pool == *pool,
                    None => false,
                };
                if !pool_matches || record.revoked || self.disabled_workers.contains(&worker_id) {
                    return false;
                }
                let before_retirement = match record.retire_at {
                    None => true,
                    Some(retire_at) => at < retire_at,
                };
                before_retirement && record.superseded_by.is_none()
            },
        }
    }

    /// Whether a retained credential other than `credential_id` carries `fingerprint`.
    pub(crate) fn fingerprint_in_use(&self, credential_id: u128, fingerprint: &[u8; 32]) -> (r: bool)
        ensures
            r == exists|k: u128| #[trigger] self.credentials@.contains_key(k)
                && self.credentials@[k].enrolled.credential_id != credential_id
                && self.credentials@[k].fingerprint == *fingerprint,
    {
        let ghost v = self.credentials.iter().remaining();
        let mut found = false;
        for kv in it: self.credentials.iter()
            invariant
                it.seq() == v,
                found == exists|j: int| 0 <= j < it.index() && (*v[j].1).enrolled.credential_id != credential_id
                    && (*v[j].1).fingerprint == *fingerprint,
        {
            let (_, record) = kv;
            if record.enrolled.credential_id != credential_id && same_bytes(&record.fingerprint, fingerprint) {
                found = true;
            }
        }
        proof {
            if found {
                let j = choose|j: int| 0 <= j < v.len() && (*v[j].1).enrolled.credential_id != credential_id
                    && (*v[j].1).fingerprint == *fingerprint;
                assert(self.credentials@.contains_key(*v[j].0));
            } else {
                assert forall|k: u128| #[trigger] self.credentials@.contains_key(k) implies !(
                self.credentials@[k].enrolled.credential_id != credential_id
                    && self.credentials@[k].fingerprint == *fingerprint) by {
                    assert(v.contains((&k, &self.credentials@[k])));
                }
            }
        }
        found
    }

    fn apply_offer(
        &mut self,
        observed_at: i64,
        enrollment_id: u128,
        token_digest: &String,
        pool: &String,
        expires_at: i64,
        purpose: EnrollmentPurposeV1,
        rotation_overlap_ms: Option<u64>,
    ) -> (r: Result<(), RegistryFault>)
        ensures
            match offer_step(old(self).model(), observed_at, enrollment_id, *token_digest, *pool, expires_at, purpose, rotation_overlap_ms) {
                Ok(m) => r is Ok && final(self).model() == m,
                Err(f) => r == Err::<(), RegistryFault>(f),
            },
    {
        match purpose {
            EnrollmentPurposeV1::Bootstrap => {
                if rotation_overlap_ms.is_some() {
                    return Err(RegistryFault::BootstrapOfferHasOverlap);
                }
            },
            EnrollmentPurposeV1::Rotation { worker_id, predecessor_credential_id } => {
                if !self.is_active_predecessor(predecessor_credential_id, worker_id, pool, observed_at) {
                    return Err(RegistryFault::RotationOfferWithoutActivePredecessor);
                }
            },
        }
        let digest = match parse_digest(token_digest.as_str()) {
            Some(d) => d,
            None => return Err(RegistryFault::DigestNotCanonical),
        };
        if self.offers.contains_key(&enrollment_id) {
            return Err(RegistryFault::EnrollmentOfferedTwice);
        }
        proof {
            lemma_as_digest(digest);
        }
        self.offers.insert(
            enrollment_id,
            OfferV1 {
                token_digest: digest,
                pool: pool.clone(),
                expires_at,
                purpose,
                rotation_overlap_ms,
                issued: None,
                revoked: false,
            },
        );
        Ok(())
    }

    fn issuance_predecessor(&self, offer: &OfferV1, credential: &IssuedWorkerCredentialV1, issued_at: i64) -> (r: Result<
        Option<u128>,
        RegistryFault,
    >)
        ensures
            r == issuance_predecessor(self.model(), *offer, *credential, issued_at),
    {
        match offer.purpose {
            EnrollmentPurposeV1::Bootstrap => {
                if credential.predecessor_credential_id.is_some() || credential.predecessor_retire_at.is_some() {
                    Err(RegistryFault::BootstrapCredentialCitesPredecessor)
                } else {
                    Ok(None)
                }
            },
            EnrollmentPurposeV1::Rotation { worker_id, predecessor_credential_id } => {
                let names_predecessor = match credential.predecessor_credential_id {
                    Some(p) => p == predecessor_credential_id,
                    None => false,
                };
                if credential.worker_id != worker_id || !names_predecessor
                    || offer.rotation_overlap_ms.is_some() != credential.predecessor_retire_at.is_some() {
                    return Err(RegistryFault::RotatedCredentialContradictsOffer);
                }
                let expected = match retirement_boundary(issued_at, offer.rotation_overlap_ms) {
                    Ok(e) => e,
                    Err(f) => return Err(f),
                };
                let retire_matches = match (credential.predecessor_retire_at, expected) {
                    (Some(a), Some(b)) => a == b,
                    (None, None) => true,
                    _ => false,
                };
                if !retire_matches {
                    return Err(RegistryFault::RetirementDiffersFromOverlap);
                }
                if !self.is_active_predecessor(predecessor_credential_id, worker_id, &offer.pool, issued_at) {
                    return Err(RegistryFault::RotationIssuanceWithoutActivePredecessor);
                }
                match credential.predecessor_retire_at {
                    Some(retire_at) => {
                        if retire_at <= issued_at {
                            return Err(RegistryFault::RetirementNotAfterIssuance);
                        }
                    },
                    None => {},
                }
                Ok(Some(predecessor_credential_id))
            },
        }
    }

    fn apply_issuance(
        &mut self,
        event_id: u128,
        issued_at: i64,
        enrollment_id: u128,
        csr_digest: &String,
        credential: &IssuedWorkerCredentialV1,
        fingerprint: [u8; 32],
    ) -> (r: Result<(), RegistryFault>)
        ensures
            match issuance_step(old(self).model(), event_id, issued_at, enrollment_id, *csr_digest, *credential, fingerprint) {
                Ok(m) => r is Ok && final(self).model() == m,
                Err(f) => r == Err::<(), RegistryFault>(f),
            },
    {
        let ghost reg = self.model();
        let csr = match parse_digest(csr_digest.as_str()) {
            Some(d) => d,
            None => return Err(RegistryFault::DigestNotCanonical),
        };
        let predecessor = match self.offers.get(&enrollment_id) {
            None => return Err(RegistryFault::CredentialPrecedesOffer),
            Some(offer) => {
                if offer.issued.is_some() || offer.revoked || !(offer.pool == credential.pool) {
                    return Err(RegistryFault::CredentialDuplicatesOrChangesPool);
                }
                if credential.schema_version != 1 {
                    return Err(RegistryFault::CredentialSchemaUnsupported);
                }
                match self.issuance_predecessor(offer, credential, issued_at) {
                    Ok(p) => p,
                    Err(f) => return Err(f),
                }
            },
        };
        let worker_id = credential.worker_id;
        let revision = match predecessor {
            None => {
                if self.worker_pools.contains_key(&worker_id) {
                    return Err(RegistryFault::BootstrapReusedWorker);
                }
                event_id
            },
            Some(_) => match self.worker_pools.get(&worker_id) {
                Some(assignment) => {
                    if !(assignment.pool == credential.pool) {
                        return Err(RegistryFault::RotatedCredentialDiffersFromPool);
                    }
                    assignment.authority_revision
                },
                None => return Err(RegistryFault::RotatedCredentialDiffersFromPool),
            },
        };
        let credential_id = credential.credential_id;
        if self.credentials.contains_key(&credential_id) {
            return Err(RegistryFault::CredentialIssuedTwice);
        }
        let taken = self.fingerprint_in_use(credential_id, &fingerprint);
        let record = CredentialRecordV1 {
            fingerprint,
            enrolled: EnrolledWorker {
                worker_id,
                credential_id,
                pool: credential.pool.clone(),
                pool_assignment_revision: revision,
            },
            enrollment_id,
            revoked: false,
            superseded_by: None,
            retire_at: None,
            predecessor,
        };
        let ghost with_record = reg.credentials.insert(credential_id, record);
        assert(fingerprint_taken(with_record, credential_id, fingerprint) == taken) by {
            if taken {
                let k = choose|k: u128| #[trigger] self.credentials@.contains_key(k)
                    && self.credentials@[k].enrolled.credential_id != credential_id
                    && self.credentials@[k].fingerprint == fingerprint;
                assert(with_record.contains_key(k));
            }
        }
        if taken {
            return Err(RegistryFault::FingerprintIssuedTwice);
        }
        if predecessor.is_none() {
            self.worker_pools.insert(
                worker_id,
                WorkerPoolAssignmentV1 { pool: credential.pool.clone(), authority_revision: event_id },
            );
        }
        self.credentials.insert(credential_id, record);
        match predecessor {
            Some(p) => {
                let previous = self.credentials.remove(&p).unwrap();
                self.credentials.insert(
                    p,
                    CredentialRecordV1 {
                        superseded_by: Some(credential_id),
                        retire_at: credential.predecessor_retire_at,
                        ..previous
                    },
                );
            },
            None => {},
        }
        let offer = self.offers.remove(&enrollment_id).unwrap();
        proof {
            lemma_as_digest(csr);
        }
        self.offers.insert(
            enrollment_id,
            OfferV1 { issued: Some(IssuedV1 { csr_digest: csr, credential: credential.duplicate() }), ..offer },
        );
        assert(self.credentials@ =~= (match predecessor {
            None => with_record,
            Some(p) => with_record.insert(p, CredentialRecordV1 {
                superseded_by: Some(credential_id),
                retire_at: credential.predecessor_retire_at,
                ..with_record[p]
            }),
        }));
        Ok(())
    }

    fn apply_revocation(&mut self, revoked_at: i64, credential_id: u128) -> (r: Result<(), RegistryFault>)
        ensures
            match revocation_step(old(self).model(), revoked_at, credential_id) {
                Ok(m) => r is Ok && final(self).model() == m,
                Err(f) => r == Err::<(), RegistryFault>(f),
            },
    {
        let ghost reg = self.model();
        let predecessor = match self.credentials.get(&credential_id) {
            None => return Err(RegistryFault::UnknownCredentialRevoked),
            Some(record) => {
                if record.revoked {
                    return Err(RegistryFault::CredentialRevokedTwice);
                }
                record.predecessor
            },
        };
        let rollback = match predecessor {
            None => None,
            Some(p) => match self.credentials.get(&p) {
                None => None,
                Some(previous) => {
                    let supersedes = match previous.superseded_by {
                        Some(s) => s == credential_id,
                        None => false,
                    };
                    let before_retirement = match previous.retire_at {
                        None => true,
                        Some(retire_at) => revoked_at < retire_at,
                    };
                    if supersedes && before_retirement {
                        Some(p)
                    } else {
                        None
                    }
                },
            },
        };
        assert(rollback == rollback_predecessor(reg, credential_id, revoked_at));
        let record = self.credentials.remove(&credential_id).unwrap();
        self.credentials.insert(credential_id, CredentialRecordV1 { revoked: true, ..record });
        let ghost revoked = self.credentials@;
        match rollback {
            Some(p) => {
                let previous = self.credentials.remove(&p).unwrap();
                self.credentials.insert(p, CredentialRecordV1 { superseded_by: None, retire_at: None, ..previous });
            },
            None => {},
        }
        assert(self.credentials@ =~= (match rollback {
            None => revoked,
            Some(p) => revoked.insert(p, CredentialRecordV1 { superseded_by: None, retire_at: None, ..revoked[p] }),
        }));
        Ok(())
    }

    fn apply_fact(&mut self, event_id: u128, observed_at: i64, fact: &RegistryFactV1) -> (r: Result<(), RegistryFault>)
        ensures
            match fact_step(old(self).model(), event_id, observed_at, *fact) {
                Ok(m) => r is Ok && final(self).model() == m,
                Err(f) => r == Err::<(), RegistryFault>(f),
            },
    {
        match fact {
            RegistryFactV1::OfferCreated { enrollment_id, token_digest, pool, expires_at, purpose, rotation_overlap_ms } =>
                self.apply_offer(observed_at, *enrollment_id, token_digest, pool, *expires_at, *purpose, *rotation_overlap_ms),
            RegistryFactV1::CredentialIssued { enrollment_id, csr_digest, credential, certificate_fingerprint, .. } =>
                self.apply_issuance(event_id, observed_at, *enrollment_id, csr_digest, credential, *certificate_fingerprint),
            RegistryFactV1::CredentialRevoked { credential_id } => self.apply_revocation(observed_at, *credential_id),
            RegistryFactV1::WorkerDisabled { worker_id } => {
                if !self.worker_pools.contains_key(worker_id) || self.disabled_workers.contains(worker_id) {
                    return Err(RegistryFault::UnknownOrDisabledWorkerDisabled);
                }
                self.disabled_workers.insert(*worker_id);
                Ok(())
            },
            RegistryFactV1::WorkerEnabled { worker_id } => {
                if !self.disabled_workers.contains(worker_id) {
                    return Err(RegistryFault::UnknownOrEnabledWorkerEnabled);
                }
                self.disabled_workers.remove(worker_id);
                Ok(())
            },
            RegistryFactV1::WorkerPoolAssigned { worker_id, previous_pool, pool } => {
                let contradicts = match self.worker_pools.get(worker_id) {
                    None => return Err(RegistryFault::UnknownWorkerPoolAssigned),
                    Some(assignment) => !self.disabled_workers.contains(worker_id) || !(assignment.pool == *previous_pool)
                        || assignment.pool == *pool,
                };
                if contradicts {
                    return Err(RegistryFault::PoolAssignmentContradictsLifecycle);
                }
                self.worker_pools.insert(*worker_id, WorkerPoolAssignmentV1 { pool: pool.clone(), authority_revision: event_id });
                Ok(())
            },
            RegistryFactV1::EnrollmentRevoked { enrollment_id } => {
                let refused = match self.offers.get(enrollment_id) {
                    None => return Err(RegistryFault::UnknownEnrollmentRevoked),
                    Some(offer) => offer.revoked || offer.issued.is_some(),
                };
                if refused {
                    return Err(RegistryFault::UsedOrRevokedEnrollmentRevoked);
                }
                let offer = self.offers.remove(enrollment_id).unwrap();
                self.offers.insert(*enrollment_id, OfferV1 { revoked: true, ..offer });
                Ok(())
            },
        }
    }

    pub(crate) fn apply_event(&mut self, event: &RegistryEventV1) -> (r: Result<(), RegistryFault>)
        ensures
            match registry_step(old(self).model(), *event) {
                Ok(m) => r is Ok && final(self).model() == m,
                Err(f) => r == Err::<(), RegistryFault>(f),
            },
    {
        let parent_matches = match (event.parent_event_id, self.last_event_id) {
            (Some(a), Some(b)) => a == b,
            (None, None) => true,
            _ => false,
        };
        if !parent_matches {
            return Err(RegistryFault::CausalParentDiffers);
        }
        let applied = match &event.payload {
            RegistryPayloadV1::Unsupported => Err(RegistryFault::UnsupportedEvent),
            RegistryPayloadV1::Undecodable(schema) => {
                if event.schema_version != 1 {
                    Err(RegistryFault::SchemaVersionUnsupported(*schema))
                } else {
                    Err(RegistryFault::PayloadUndecodable(*schema))
                }
            },
            RegistryPayloadV1::Fact(fact) => {
                if event.schema_version != 1 {
                    Err(RegistryFault::SchemaVersionUnsupported(schema_of(fact)))
                } else {
                    self.apply_fact(event.event_id, event.observed_at, fact)
                }
            },
        };
        match applied {
            Err(f) => Err(f),
            Ok(()) => {
                self.revision = Some(event.sequence);
                self.last_event_id = Some(event.event_id);
                Ok(())
            },
        }
    }
}

/// The schema of a decoded fact.
pub fn schema_of(fact: &RegistryFactV1) -> (r: RegistrySchemaV1)
    ensures
        r == fact_schema(*fact),
{
    match fact {
        RegistryFactV1::OfferCreated { .. } => RegistrySchemaV1::OfferCreated,
        RegistryFactV1::CredentialIssued { .. } => RegistrySchemaV1::CredentialIssued,
        RegistryFactV1::CredentialRevoked { .. } => RegistrySchemaV1::CredentialRevoked,
        RegistryFactV1::WorkerDisabled { .. } => RegistrySchemaV1::WorkerDisabled,
        RegistryFactV1::WorkerEnabled { .. } => RegistrySchemaV1::WorkerEnabled,
        RegistryFactV1::WorkerPoolAssigned { .. } => RegistrySchemaV1::WorkerPoolAssigned,
        RegistryFactV1::EnrollmentRevoked { .. } => RegistrySchemaV1::EnrollmentRevoked,
    }
}

} // verus!
