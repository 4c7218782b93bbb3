use vstd::prelude::*;

use std::collections::BTreeSet;
use vstd::std_specs::iter::IteratorSpec;

use crate::enrollment::laws::{lemma_projection_keeps_invariant, lemma_registry_fault_persists};
use crate::enrollment::model::{
    CredentialRecordV1, EnrolledWorker, EnrollmentError, RegistryEventV1, RegistryModel, authorized_at,
    registry_invariant, registry_of,
};
use crate::enrollment::project::{RegistryTables, same_bytes};

verus! {

/// The validated worker registry, evaluated at one wall-clock instant.
pub struct EnrollmentRegistry {
    tables: RegistryTables,
    evaluated_at: i64,
}

/// The worker an authorized credential with `fingerprint` authenticates, with its current pool.
pub open spec fn enrolled_by_fingerprint(reg: RegistryModel, now: i64, fingerprint: [u8; 32]) -> Option<EnrolledWorker> {
    if exists|k: u128| #[trigger] reg.credentials.contains_key(k) && reg.credentials[k].fingerprint == fingerprint
        && authorized_at(reg.credentials[k], reg.disabled_workers, now) {
        let k = choose|k: u128| #[trigger] reg.credentials.contains_key(k) && reg.credentials[k].fingerprint == fingerprint
            && authorized_at(reg.credentials[k], reg.disabled_workers, now);
        let record = reg.credentials[k];
        let assignment = reg.worker_pools[record.enrolled.worker_id];
        Some(EnrolledWorker {
            pool: assignment.pool,
            pool_assignment_revision: assignment.authority_revision,
            ..record.enrolled
        })
    } else {
        None
    }
}

/// The workers that hold at least one retained credential.
pub open spec fn credential_workers(reg: RegistryModel) -> Set<u128> {
    Set::new(|w: u128| exists|k: u128| #[trigger] reg.credentials.contains_key(k) && reg.credentials[k].enrolled.worker_id == w)
}

impl EnrollmentRegistry {
    #[verifier::type_invariant]
    spec fn consistent(self) -> bool {
        registry_invariant(self.tables.model())
    }

    /// The projected registry.
    pub closed spec fn model(self) -> RegistryModel {
        self.tables.model()
    }

    /// The instant at which effective authority is evaluated.
    pub closed spec fn evaluated_at_spec(self) -> i64 {
        self.evaluated_at
    }

    pub(crate) fn tables(&self) -> (r: &RegistryTables)
        ensures
            r.model() == self.model(),
            registry_invariant(self.model()),
    {
        proof {
            use_type_invariant(self);
        }
        &self.tables
    }

    /// The instant at which effective authority is evaluated.
    pub fn evaluated_at(&self) -> (r: i64)
        ensures
            r == self.evaluated_at_spec(),
    {
        self.evaluated_at
    }

    /// The validated registry head.
    pub fn last_event_id(&self) -> (r: Option<u128>)
        ensures
            r == self.model().last_event_id,
    {
        self.tables.last_event_id
    }

    /// The stream revision of the validated registry head.
    pub fn revision(&self) -> (r: Option<u64>)
        ensures
            r == self.model().revision,
    {
        self.tables.revision
    }

    /// Whether `credential_id` is a credential of `worker_id` that authorizes it now.
    pub fn credential_is_authorized(&self, credential_id: u128, worker_id: u128) -> (r: bool)
        ensures
            r == (self.model().credentials.contains_key(credential_id)
                && self.model().credentials[credential_id].enrolled.worker_id == worker_id
                && authorized_at(self.model().credentials[credential_id], self.model().disabled_workers, self.evaluated_at_spec())),
    {
        match self.tables.credentials.get(&credential_id) {
            None => false,
            Some(record) => record.enrolled.worker_id == worker_id && is_authorized_at(
                record,
                &self.tables.disabled_workers,
                self.evaluated_at,
            ),
        }
    }

    /// Every worker holding a retained credential.
    pub fn worker_ids(&self) -> (r: BTreeSet<u128>)
        ensures
            r@ == credential_workers(self.model()),
    {
        let ghost v = self.tables.credentials.iter().remaining();
        let mut workers: BTreeSet<u128> = BTreeSet::new();
        for kv in it: self.tables.credentials.iter()
            invariant
                it.seq() == v,
                workers@ == Set::new(|w: u128| exists|j: int| 0 <= j < it.index() && (*v[j].1).enrolled.worker_id == w),
        {
            let (_, record) = kv;
            workers.insert(record.enrolled.worker_id);
            proof {
                let ghost before = it.index();
                assert(workers@ =~= Set::new(|w: u128| exists|j: int| 0 <= j < before + 1 && (*v[j].1).enrolled.worker_id == w)) by {
                    assert forall|w: u128| workers@.contains(w) implies exists|j: int| 0 <= j < before + 1
                        && (*v[j].1).enrolled.worker_id == w by {
                        if w == record.enrolled.worker_id {
                            assert((*v[before].1).enrolled.worker_id == w);
                        }
                    }
                }
            }
        }
        proof {
            let m = self.tables.credentials@;
            assert forall|w: u128| workers@.contains(w) <==> credential_workers(self.model()).contains(w) by {
                if workers@.contains(w) {
                    let j = choose|j: int| 0 <= j < v.len() && (*v[j].1).enrolled.worker_id == w;
                    assert(m.contains_key(*v[j].0));
                }
                if credential_workers(self.model()).contains(w) {
                    let k = choose|k: u128| #[trigger] m.contains_key(k) && m[k].enrolled.worker_id == w;
                    assert(v.contains((&k, &m[k])));
                }
            }
            assert(workers@ =~= credential_workers(self.model()));
        }
        workers
    }

    /// The worker authenticated by a certificate fingerprint, if an authorized credential carries it.
    pub fn enrolled_worker(&self, fingerprint: &[u8; 32]) -> (r: Option<EnrolledWorker>)
        ensures
            r == enrolled_by_fingerprint(self.model(), self.evaluated_at_spec(), *fingerprint),
    {
        proof {
            use_type_invariant(self);
        }
        let ghost m = self.tables.credentials@;
        let ghost v = self.tables.credentials.iter().remaining();
        for kv in it: self.tables.credentials.iter()
            invariant
                it.seq() == v,
                v == self.tables.credentials.iter().remaining(),
                m == self.tables.credentials@,
                registry_invariant(self.tables.model()),
                forall|j: int| 0 <= j < it.index() ==> !((*v[j].1).fingerprint == *fingerprint
                    && authorized_at(*v[j].1, self.tables.disabled_workers@, self.evaluated_at)),
        {
            let (key, record) = kv;
            if same_bytes(&record.fingerprint, fingerprint) && is_authorized_at(record, &self.tables.disabled_workers, self.evaluated_at) {
                proof {
                    assert(m.contains_key(*key));
                    let c = choose|k: u128| #[trigger] m.contains_key(k) && m[k].fingerprint == *fingerprint
                        && authorized_at(m[k], self.tables.disabled_workers@, self.evaluated_at);
                    assert(c == *key);
                }
                let assignment = self.tables.worker_pools.get(&record.enrolled.worker_id).unwrap();
                return Some(EnrolledWorker {
                    worker_id: record.enrolled.worker_id,
                    credential_id: record.enrolled.credential_id,
                    pool: assignment.pool.clone(),
                    pool_assignment_revision: assignment.authority_revision,
                });
            }
        }
        proof {
            assert forall|k: u128| #[trigger] m.contains_key(k) implies !(m[k].fingerprint == *fingerprint
                && authorized_at(m[k], self.tables.disabled_workers@, self.evaluated_at)) by {
                assert(v.contains((&k, &m[k])));
            }
        }
        None
    }
}

/// Whether a credential authorizes its worker at `now` (see `authorized_at`).
pub fn is_authorized_at(record: &CredentialRecordV1, disabled_workers: &BTreeSet<u128>, now: i64) -> (r: bool)
    ensures
        r == authorized_at(*record, disabled_workers@, now),
{
    let before_retirement = match record.retire_at {
        None => true,
        Some(retire_at) => now < retire_at,
    };
    !record.revoked && !disabled_workers.contains(&record.enrolled.worker_id) && before_retirement
}

/// Validates the full registry history and projects the registry evaluated at `now`.
pub fn project_history(history: &Vec<RegistryEventV1>, now: i64) -> (r: Result<EnrollmentRegistry, EnrollmentError>)
    ensures
        match registry_of(history@) {
            Ok(m) => r is Ok && r->Ok_0.model() == m && r->Ok_0.evaluated_at_spec() == now && registry_invariant(m),
            Err(f) => r == Err::<EnrollmentRegistry, EnrollmentError>(EnrollmentError::InvalidHistory(f)),
        },
{
    let mut tables = RegistryTables::new();
    let mut i: usize = 0;
    while i < history.len()
        invariant
            i <= history.len(),
            registry_of(history@.take(i as int)) == Ok::<RegistryModel, crate::enrollment::model::RegistryFault>(tables.model()),
        decreases history.len() - i,
    {
        let ghost prefix = history@.take(i as int + 1);
        assert(prefix.drop_last() == history@.take(i as int));
        match tables.apply_event(&history[i]) {
            Ok(()) => {},
            Err(f) => {
                proof {
                    lemma_registry_fault_persists(history@, i as int + 1);
                }
                return Err(EnrollmentError::InvalidHistory(f));
            },
        }
        i = i + 1;
    }
    assert(history@.take(i as int) == history@);
    proof {
        lemma_projection_keeps_invariant(history@);
    }
    Ok(EnrollmentRegistry { tables, evaluated_at: now })
}

} // verus!
