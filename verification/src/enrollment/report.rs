use vstd::prelude::*;

use std::collections::BTreeMap;
use vstd::std_specs::iter::IteratorSpec;

use crate::enrollment::model::{
    CredentialRecordV1, EnrollmentError, OfferV1, RegistryEventV1, RegistryModel, WorkerPoolAssignmentV1,
    authorized_at, registry_invariant, registry_of,
};
use crate::enrollment::registry::{EnrollmentRegistry, project_history};

verus! {

/// Effective authority state of one retained credential at the inspection time.
#[derive(Clone, Copy, Debug, PartialEq, Eq, Structural)]
pub enum RegistryCredentialStatus {
    /// Credential currently authorizes its worker.
    Active,
    /// Credential is intact but its logical worker is disabled.
    WorkerDisabled,
    /// Credential reached its frozen rotation-retirement boundary.
    Retired,
    /// Credential was explicitly revoked.
    Revoked,
}

/// Durable origin of one registry credential.
#[derive(Clone, Copy, Debug, PartialEq, Eq, Structural)]
pub enum RegistryCredentialProvenance {
    /// Credential was issued through a one-shot enrollment authority.
    Issued { enrollment_id: u128 },
}

/// The status of a credential: revocation first, then retirement, then worker disablement.
pub open spec fn credential_status_of(record: CredentialRecordV1, disabled: Set<u128>, now: i64) -> RegistryCredentialStatus {
    if record.revoked {
        RegistryCredentialStatus::Revoked
    } else if record.retire_at matches Some(r) && now >= r {
        RegistryCredentialStatus::Retired
    } else if disabled.contains(record.enrolled.worker_id) {
        RegistryCredentialStatus::WorkerDisabled
    } else {
        RegistryCredentialStatus::Active
    }
}

/// The effective authority state of a credential at `now`.
pub fn credential_status(record: &CredentialRecordV1, registry: &EnrollmentRegistry) -> (r: RegistryCredentialStatus)
    ensures
        r == credential_status_of(*record, registry.model().disabled_workers, registry.evaluated_at_spec()),
{
    let now = registry.evaluated_at();
    if record.revoked {
        return RegistryCredentialStatus::Revoked;
    }
    let retired = match record.retire_at {
        Some(retire_at) => now >= retire_at,
        None => false,
    };
    if retired {
        RegistryCredentialStatus::Retired
    } else if registry.tables().disabled_workers.contains(&record.enrolled.worker_id) {
        RegistryCredentialStatus::WorkerDisabled
    } else {
        RegistryCredentialStatus::Active
    }
}

/// A credential is reported active exactly when it authorizes its worker.
pub proof fn lemma_active_iff_authorized(record: CredentialRecordV1, disabled: Set<u128>, now: i64)
    ensures
        (credential_status_of(record, disabled, now) == RegistryCredentialStatus::Active) == authorized_at(record, disabled, now),
{
}

/// A report count: a collection size as `u64`.
pub fn count(value: usize) -> (r: Result<u64, EnrollmentError>)
    ensures
        r == Ok::<u64, EnrollmentError>(value as u64),
{
    Ok(value as u64)
}

/// Operator-facing projection of one stable logical worker.
#[derive(Debug, PartialEq, Eq)]
pub struct RegistryWorkerInspection {
    pub worker_id: u128,
    pub pool: String,
    pub pool_assignment_revision: u128,
    pub disabled: bool,
    pub credential_ids: Vec<u128>,
}

impl RegistryWorkerInspection {
    /// The stable logical worker identity.
    pub fn worker_id(&self) -> (r: u128)
        ensures
            r == self.worker_id,
    {
        self.worker_id
    }

    /// The current controller-authorized scheduling pool.
    pub fn pool(&self) -> (r: &String)
        ensures
            r == self.pool,
    {
        &self.pool
    }

    /// The registry fact establishing the current pool.
    pub fn pool_assignment_revision(&self) -> (r: u128)
        ensures
            r == self.pool_assignment_revision,
    {
        self.pool_assignment_revision
    }

    /// Whether all credentials are currently suppressed by worker disablement.
    pub fn is_disabled(&self) -> (r: bool)
        ensures
            r == self.disabled,
    {
        self.disabled
    }

    /// All retained credentials of the worker, in identity order.
    pub fn credential_ids(&self) -> (r: &[u128])
        ensures
            r@ == self.credential_ids@,
    {
        self.credential_ids.as_slice()
    }
}

/// Operator-facing projection of one retained credential, without secret or certificate bytes.
#[derive(Debug, PartialEq, Eq)]
pub struct RegistryCredentialInspection {
    pub credential_id: u128,
    pub worker_id: u128,
    pub certificate_fingerprint: [u8; 32],
    pub status: RegistryCredentialStatus,
    pub provenance: RegistryCredentialProvenance,
    pub predecessor_credential_id: Option<u128>,
    pub successor_credential_id: Option<u128>,
    pub retire_at: Option<i64>,
}

impl RegistryCredentialInspection {
    /// The rotatable credential identity.
    pub fn credential_id(&self) -> (r: u128)
        ensures
            r == self.credential_id,
    {
        self.credential_id
    }

    /// The stable worker owning the credential.
    pub fn worker_id(&self) -> (r: u128)
        ensures
            r == self.worker_id,
    {
        self.worker_id
    }

    /// Effective authority state at the report observation time.
    pub fn status(&self) -> (r: RegistryCredentialStatus)
        ensures
            r == self.status,
    {
        self.status
    }

    /// The leaf-certificate fingerprint retained as credential evidence.
    pub fn certificate_fingerprint(&self) -> (r: [u8; 32])
        ensures
            r == self.certificate_fingerprint,
    {
        self.certificate_fingerprint
    }

    /// How the credential entered managed authority.
    pub fn provenance(&self) -> (r: RegistryCredentialProvenance)
        ensures
            r == self.provenance,
    {
        self.provenance
    }

    /// Rotation predecessor lineage, when present.
    pub fn predecessor_credential_id(&self) -> (r: Option<u128>)
        ensures
            r == self.predecessor_credential_id,
    {
        self.predecessor_credential_id
    }

    /// The successor that superseded this credential, when present.
    pub fn successor_credential_id(&self) -> (r: Option<u128>)
        ensures
            r == self.successor_credential_id,
    {
        self.successor_credential_id
    }

    /// The frozen retirement boundary, when configured.
    pub fn retire_at(&self) -> (r: Option<i64>)
        ensures
            r == self.retire_at,
    {
        self.retire_at
    }
}

/// The inspection line of a worker.
pub open spec fn worker_line_matches(line: RegistryWorkerInspection, reg: RegistryModel) -> bool {
    let w = line.worker_id;
    &&& reg.worker_pools.contains_key(w)
    &&& line.pool == reg.worker_pools[w].pool
    &&& line.pool_assignment_revision == reg.worker_pools[w].authority_revision
    &&& line.disabled == reg.disabled_workers.contains(w)
    &&& strictly_increasing(line.credential_ids@)
    &&& forall|c: u128| #[trigger] line.credential_ids@.contains(c) <==> (reg.credentials.contains_key(c)
        && reg.credentials[c].enrolled.worker_id == w)
}

/// The inspection line of a credential.
pub open spec fn credential_line_matches(line: RegistryCredentialInspection, reg: RegistryModel, now: i64) -> bool {
    let c = line.credential_id;
    &&& reg.credentials.contains_key(c)
    &&& line.worker_id == reg.credentials[c].enrolled.worker_id
    &&& line.certificate_fingerprint == reg.credentials[c].fingerprint
    &&& line.status == credential_status_of(reg.credentials[c], reg.disabled_workers, now)
    &&& line.provenance == RegistryCredentialProvenance::Issued { enrollment_id: reg.credentials[c].enrollment_id }
    &&& line.predecessor_credential_id == reg.credentials[c].predecessor
    &&& line.successor_credential_id == reg.credentials[c].superseded_by
    &&& line.retire_at == reg.credentials[c].retire_at
}

/// Whether identities appear in strictly increasing order.
pub open spec fn strictly_increasing(ids: Seq<u128>) -> bool {
    forall|i: int, j: int| 0 <= i < j < ids.len() ==> ids[i] < ids[j]
}

/// Canonical current registry view used by list and show operations.
#[derive(Debug, PartialEq, Eq)]
pub struct WorkerRegistryInspection {
    pub schema_version: u16,
    pub observed_at: i64,
    pub head_event_id: Option<u128>,
    pub event_count: u64,
    pub workers: Vec<RegistryWorkerInspection>,
    pub credentials: Vec<RegistryCredentialInspection>,
}

/// Whether an inspection report is the exact report of `reg` over `event_count` facts at `now`:
/// every worker and every credential once, in identity order.
pub open spec fn inspection_of(report: WorkerRegistryInspection, reg: RegistryModel, event_count: nat, now: i64) -> bool {
    &&& report.schema_version == 1
    &&& report.observed_at == now
    &&& report.head_event_id == reg.last_event_id
    &&& report.event_count == event_count
    &&& strictly_increasing(report.workers@.map_values(|l: RegistryWorkerInspection| l.worker_id))
    &&& forall|i: int| 0 <= i < report.workers@.len() ==> worker_line_matches(#[trigger] report.workers@[i], reg)
    &&& forall|w: u128| #[trigger] reg.worker_pools.contains_key(w) ==> exists|i: int| 0 <= i < report.workers@.len()
        && #[trigger] report.workers@[i].worker_id == w
    &&& strictly_increasing(report.credentials@.map_values(|l: RegistryCredentialInspection| l.credential_id))
    &&& forall|i: int| 0 <= i < report.credentials@.len() ==> credential_line_matches(#[trigger] report.credentials@[i], reg, now)
    &&& forall|c: u128| #[trigger] reg.credentials.contains_key(c) ==> exists|i: int| 0 <= i < report.credentials@.len()
        && #[trigger] report.credentials@[i].credential_id == c
}

/// Walks a registry table once to learn that its iterator yields identities in increasing order.
fn keys_in_order<V>(m: &BTreeMap<u128, V>)
    ensures
        forall|i: int, j: int| 0 <= i < j < m.iter().remaining().len()
            ==> *m.iter().remaining()[i].0 < *m.iter().remaining()[j].0,
{
    let it = m.iter();
    proof {
        let keys = it.remaining().map_values(|kv: (&u128, &V)| *kv.0);
        assert(vstd::laws_cmp::obeys_cmp::<u128>());
        assert(vstd::std_specs::btree::key_obeys_cmp_spec::<u128>());
        assert(vstd::std_specs::btree::increasing_seq(keys));
        assert forall|i: int, j: int| 0 <= i < j < m.iter().remaining().len()
            implies *m.iter().remaining()[i].0 < *m.iter().remaining()[j].0 by {
            assert(keys[i] == *m.iter().remaining()[i].0);
            assert(keys[j] == *m.iter().remaining()[j].0);
            assert(vstd::std_specs::cmp::OrdSpec::cmp_spec(&keys[i], &keys[j]) is Less);
        }
    }
}

/// The identities of the credentials of `worker_id`, in increasing order.
fn credential_ids_of(registry: &EnrollmentRegistry, worker_id: u128) -> (r: Vec<u128>)
    ensures
        strictly_increasing(r@),
        forall|c: u128| #[trigger] r@.contains(c) <==> (registry.model().credentials.contains_key(c)
            && registry.model().credentials[c].enrolled.worker_id == worker_id),
{
    let m = &registry.tables().credentials;
    let ghost v = m.iter().remaining();
    keys_in_order(m);
    let mut ids: Vec<u128> = Vec::new();
    for kv in it: m.iter()
        invariant
            it.seq() == v,
            v == m.iter().remaining(),
            forall|i: int, j: int| 0 <= i < j < v.len() ==> *v[i].0 < *v[j].0,
            strictly_increasing(ids@),
            forall|t: int, j: int| 0 <= t < ids@.len() && it.index() <= j < v.len() ==> #[trigger] ids@[t] < #[trigger] *v[j].0,
            forall|c: u128| #[trigger] ids@.contains(c) <==> exists|j: int| 0 <= j < it.index() && *v[j].0 == c
                && (*v[j].1).enrolled.worker_id == worker_id,
    {
        let (key, record) = kv;
        let ghost idx = it.index();
        if record.enrolled.worker_id == worker_id {
            let ghost before = ids@;
            ids.push(*key);
            proof {
                assert forall|t: int, j: int| 0 <= t < ids@.len() && idx + 1 <= j < v.len() implies #[trigger] ids@[t] < #[trigger] *v[j].0 by {
                    if t < before.len() {
                        assert(before[t] == ids@[t]);
                    } else {
                        assert(ids@[t] == *v[idx].0);
                    }
                }
                assert forall|a: int, b: int| 0 <= a < b < ids@.len() implies ids@[a] < ids@[b] by {
                    if b == before.len() {
                        assert(before[a] < *v[idx].0);
                    } else {
                        assert(before[a] < before[b]);
                    }
                }
                assert forall|c: u128| #[trigger] ids@.contains(c) <==> exists|j: int| 0 <= j < idx + 1 && *v[j].0 == c
                    && (*v[j].1).enrolled.worker_id == worker_id by {
                    if ids@.contains(c) && c != *key {
                        let t = choose|t: int| 0 <= t < ids@.len() && ids@[t] == c;
                        assert(t < before.len());
                        assert(before.contains(c));
                    }
                    if exists|j: int| 0 <= j < idx + 1 && *v[j].0 == c && (*v[j].1).enrolled.worker_id == worker_id {
                        if c != *key {
                            let j = choose|j: int| 0 <= j < idx + 1 && *v[j].0 == c && (*v[j].1).enrolled.worker_id == worker_id;
                            assert(j < idx);
                            assert(before.contains(c));
                            let t = choose|t: int| 0 <= t < before.len() && before[t] == c;
                            assert(ids@[t] == c);
                        } else {
                            assert(ids@[before.len() as int] == c);
                        }
                    }
                }
            }
        } else {
            proof {
                assert forall|c: u128| #[trigger] ids@.contains(c) <==> exists|j: int| 0 <= j < idx + 1 && *v[j].0 == c
                    && (*v[j].1).enrolled.worker_id == worker_id by {
                    if exists|j: int| 0 <= j < idx + 1 && *v[j].0 == c && (*v[j].1).enrolled.worker_id == worker_id {
                        let j = choose|j: int| 0 <= j < idx + 1 && *v[j].0 == c && (*v[j].1).enrolled.worker_id == worker_id;
                        assert(j != idx);
                    }
                }
            }
        }
    }
    proof {
        let cm = m@;
        assert forall|c: u128| #[trigger] ids@.contains(c) <==> (cm.contains_key(c) && cm[c].enrolled.worker_id == worker_id) by {
            if ids@.contains(c) {
                let j = choose|j: int| 0 <= j < v.len() && *v[j].0 == c && (*v[j].1).enrolled.worker_id == worker_id;
                assert(cm.contains_key(*v[j].0));
            }
            if cm.contains_key(c) && cm[c].enrolled.worker_id == worker_id {
                assert(v.contains((&c, &cm[c])));
                let j = choose|j: int| 0 <= j < v.len() && v[j] == (&c, &cm[c]);
                assert(*v[j].0 == c);
            }
        }
    }
    ids
}

/// One inspection line per worker, in identity order.
fn worker_lines(registry: &EnrollmentRegistry) -> (r: Vec<RegistryWorkerInspection>)
    ensures
        strictly_increasing(r@.map_values(|l: RegistryWorkerInspection| l.worker_id)),
        forall|i: int| 0 <= i < r@.len() ==> worker_line_matches(#[trigger] r@[i], registry.model()),
        forall|w: u128| #[trigger] registry.model().worker_pools.contains_key(w) ==> exists|i: int| 0 <= i < r@.len()
            && #[trigger] r@[i].worker_id == w,
{
    let tables = registry.tables();
    let m = &tables.worker_pools;
    let ghost v = m.iter().remaining();
    keys_in_order(m);
    let mut lines: Vec<RegistryWorkerInspection> = Vec::new();
    for kv in it: m.iter()
        invariant
            it.seq() == v,
            v == m.iter().remaining(),
            tables.model() == registry.model(),
            *m == tables.worker_pools,
            lines@.len() == it.index(),
            forall|i: int| 0 <= i < lines@.len() ==> (#[trigger] lines@[i]).worker_id == *v[i].0
                && worker_line_matches(lines@[i], registry.model()),
    {
        let (worker_id, assignment) = kv;
        proof {
            let idx = it.index();
            assert(m@.contains_key(*v[idx].0));
            assert(m@[*v[idx].0] == *v[idx].1);
        }
        let line = RegistryWorkerInspection {
            worker_id: *worker_id,
            pool: assignment.pool.clone(),
            pool_assignment_revision: assignment.authority_revision,
            disabled: tables.disabled_workers.contains(worker_id),
            credential_ids: credential_ids_of(registry, *worker_id),
        };
        lines.push(line);
    }
    proof {
        keys_in_order_facts(m, v);
        let ids = lines@.map_values(|l: RegistryWorkerInspection| l.worker_id);
        assert forall|a: int, b: int| 0 <= a < b < ids.len() implies ids[a] < ids[b] by {
            assert(ids[a] == *v[a].0 && ids[b] == *v[b].0);
        }
        assert forall|w: u128| #[trigger] m@.contains_key(w) implies exists|i: int| 0 <= i < lines@.len()
            && #[trigger] lines@[i].worker_id == w by {
            assert(v.contains((&w, &m@[w])));
            let j = choose|j: int| 0 <= j < v.len() && v[j] == (&w, &m@[w]);
            assert(lines@[j].worker_id == w);
        }
    }
    lines
}

proof fn keys_in_order_facts<V>(m: &BTreeMap<u128, V>, v: Seq<(&u128, &V)>)
    requires
        v == m.iter().remaining(),
        forall|i: int, j: int| 0 <= i < j < m.iter().remaining().len()
            ==> *m.iter().remaining()[i].0 < *m.iter().remaining()[j].0,
    ensures
        forall|i: int, j: int| 0 <= i < j < v.len() ==> *v[i].0 < *v[j].0,
{
}

/// One inspection line per credential, in identity order.
fn credential_lines(registry: &EnrollmentRegistry) -> (r: Vec<RegistryCredentialInspection>)
    ensures
        strictly_increasing(r@.map_values(|l: RegistryCredentialInspection| l.credential_id)),
        forall|i: int| 0 <= i < r@.len() ==> credential_line_matches(#[trigger] r@[i], registry.model(), registry.evaluated_at_spec()),
        forall|c: u128| #[trigger] registry.model().credentials.contains_key(c) ==> exists|i: int| 0 <= i < r@.len()
            && #[trigger] r@[i].credential_id == c,
{
    let tables = registry.tables();
    let m = &tables.credentials;
    let ghost v = m.iter().remaining();
    keys_in_order(m);
    let mut lines: Vec<RegistryCredentialInspection> = Vec::new();
    for kv in it: m.iter()
        invariant
            it.seq() == v,
            v == m.iter().remaining(),
            tables.model() == registry.model(),
            *m == tables.credentials,
            lines@.len() == it.index(),
            forall|i: int| 0 <= i < lines@.len() ==> (#[trigger] lines@[i]).credential_id == *v[i].0
                && credential_line_matches(lines@[i], registry.model(), registry.evaluated_at_spec()),
    {
        let (credential_id, record) = kv;
        proof {
            let idx = it.index();
            assert(m@.contains_key(*v[idx].0));
            assert(m@[*v[idx].0] == *v[idx].1);
        }
        let line = RegistryCredentialInspection {
            credential_id: *credential_id,
            worker_id: record.enrolled.worker_id,
            certificate_fingerprint: record.fingerprint,
            status: credential_status(record, registry),
            provenance: RegistryCredentialProvenance::Issued { enrollment_id: record.enrollment_id },
            predecessor_credential_id: record.predecessor,
            successor_credential_id: record.superseded_by,
            retire_at: record.retire_at,
        };
        lines.push(line);
    }
    proof {
        keys_in_order_facts(m, v);
        let ids = lines@.map_values(|l: RegistryCredentialInspection| l.credential_id);
        assert forall|a: int, b: int| 0 <= a < b < ids.len() implies ids[a] < ids[b] by {
            assert(ids[a] == *v[a].0 && ids[b] == *v[b].0);
        }
        assert forall|c: u128| #[trigger] m@.contains_key(c) implies exists|i: int| 0 <= i < lines@.len()
            && #[trigger] lines@[i].credential_id == c by {
            assert(v.contains((&c, &m@[c])));
            let j = choose|j: int| 0 <= j < v.len() && v[j] == (&c, &m@[c]);
            assert(lines@[j].credential_id == c);
        }
    }
    lines
}

/// The canonical current registry view: every worker and every credential, in identity order.
pub fn inspect_registry(history: &Vec<RegistryEventV1>, now: i64) -> (r: Result<WorkerRegistryInspection, EnrollmentError>)
    ensures
        match registry_of(history@) {
            Err(f) => r == Err::<WorkerRegistryInspection, EnrollmentError>(EnrollmentError::InvalidHistory(f)),
            Ok(reg) => r is Ok && inspection_of(r->Ok_0, reg, history@.len(), now),
        },
{
    let registry = match project_history(history, now) {
        Ok(registry) => registry,
        Err(e) => return Err(e),
    };
    let event_count = match count(history.len()) {
        Ok(n) => n,
        Err(e) => return Err(e),
    };
    let workers = worker_lines(&registry);
    let credentials = credential_lines(&registry);
    Ok(WorkerRegistryInspection {
        schema_version: 1,
        observed_at: now,
        head_event_id: registry.last_event_id(),
        event_count,
        workers,
        credentials,
    })
}

impl WorkerRegistryInspection {
    /// The wall-clock instant used to evaluate effective authority.
    pub fn observed_at(&self) -> (r: i64)
        ensures
            r == self.observed_at,
    {
        self.observed_at
    }

    /// The validated registry head, if any facts exist.
    pub fn head_event_id(&self) -> (r: Option<u128>)
        ensures
            r == self.head_event_id,
    {
        self.head_event_id
    }

    /// The number of causally validated registry facts.
    pub fn event_count(&self) -> (r: u64)
        ensures
            r == self.event_count,
    {
        self.event_count
    }

    /// Workers in identity order.
    pub fn workers(&self) -> (r: &[RegistryWorkerInspection])
        ensures
            r@ == self.workers@,
    {
        self.workers.as_slice()
    }

    /// Credentials in identity order.
    pub fn credentials(&self) -> (r: &[RegistryCredentialInspection])
        ensures
            r@ == self.credentials@,
    {
        self.credentials.as_slice()
    }

    /// Finds one stable worker.
    pub fn worker(&self, worker_id: u128) -> (r: Option<&RegistryWorkerInspection>)
        ensures
            match r {
                Some(line) => exists|i: int| 0 <= i < self.workers@.len() && self.workers@[i] == *line && line.worker_id == worker_id,
                None => forall|i: int| 0 <= i < self.workers@.len() ==> (#[trigger] self.workers@[i]).worker_id != worker_id,
            },
    {
        let mut i: usize = 0;
        while i < self.workers.len()
            invariant
                i <= self.workers@.len(),
                forall|j: int| 0 <= j < i ==> (#[trigger] self.workers@[j]).worker_id != worker_id,
            decreases self.workers@.len() - i,
        {
            if self.workers[i].worker_id == worker_id {
                return Some(&self.workers[i]);
            }
            i = i + 1;
        }
        None
    }

    /// Finds one retained credential.
    pub fn credential(&self, credential_id: u128) -> (r: Option<&RegistryCredentialInspection>)
        ensures
            match r {
                Some(line) => exists|i: int| 0 <= i < self.credentials@.len() && self.credentials@[i] == *line
                    && line.credential_id == credential_id,
                None => forall|i: int| 0 <= i < self.credentials@.len() ==> (#[trigger] self.credentials@[i]).credential_id != credential_id,
            },
    {
        let mut i: usize = 0;
        while i < self.credentials.len()
            invariant
                i <= self.credentials@.len(),
                forall|j: int| 0 <= j < i ==> (#[trigger] self.credentials@[j]).credential_id != credential_id,
            decreases self.credentials@.len() - i,
        {
            if self.credentials[i].credential_id == credential_id {
                return Some(&self.credentials[i]);
            }
            i = i + 1;
        }
        None
    }
}

/// Successful full-history audit summary.
#[derive(Clone, Copy, Debug, PartialEq, Eq, Structural)]
pub struct WorkerRegistryAudit {
    pub schema_version: u16,
    pub observed_at: i64,
    pub head_event_id: Option<u128>,
    pub event_count: u64,
    pub worker_count: u64,
    pub disabled_worker_count: u64,
    pub credential_count: u64,
    pub authorized_credential_count: u64,
    pub enrollment_count: u64,
    pub open_enrollment_count: u64,
}

impl WorkerRegistryAudit {
    /// The wall-clock instant used to evaluate effective authority.
    pub fn observed_at(&self) -> (r: i64)
        ensures
            r == self.observed_at,
    {
        self.observed_at
    }

    /// The validated registry head, if the registry is non-empty.
    pub fn head_event_id(&self) -> (r: Option<u128>)
        ensures
            r == self.head_event_id,
    {
        self.head_event_id
    }

    /// The number of validated registry facts.
    pub fn event_count(&self) -> (r: u64)
        ensures
            r == self.event_count,
    {
        self.event_count
    }

    /// The retained stable worker count.
    pub fn worker_count(&self) -> (r: u64)
        ensures
            r == self.worker_count,
    {
        self.worker_count
    }

    /// Workers under explicit disablement.
    pub fn disabled_worker_count(&self) -> (r: u64)
        ensures
            r == self.disabled_worker_count,
    {
        self.disabled_worker_count
    }

    /// The retained credential count.
    pub fn credential_count(&self) -> (r: u64)
        ensures
            r == self.credential_count,
    {
        self.credential_count
    }

    /// Credentials that are effective at the audit time.
    pub fn authorized_credential_count(&self) -> (r: u64)
        ensures
            r == self.authorized_credential_count,
    {
        self.authorized_credential_count
    }

    /// Every retained enrollment offer.
    pub fn enrollment_count(&self) -> (r: u64)
        ensures
            r == self.enrollment_count,
    {
        self.enrollment_count
    }

    /// Unused, unrevoked, unexpired enrollment offers.
    pub fn open_enrollment_count(&self) -> (r: u64)
        ensures
            r == self.open_enrollment_count,
    {
        self.open_enrollment_count
    }
}

/// Credentials that authorize their worker at `now`.
pub open spec fn authorized_credentials(reg: RegistryModel, now: i64) -> Set<u128> {
    reg.credentials.dom().filter(|k: u128| authorized_at(reg.credentials[k], reg.disabled_workers, now))
}

/// Whether an offer can still be redeemed at `now`: unused, unrevoked and unexpired.
pub open spec fn offer_open(offer: OfferV1, now: i64) -> bool {
    !offer.revoked && offer.issued is None && now < offer.expires_at
}

/// Offers that can still be redeemed at `now`.
pub open spec fn open_enrollments(reg: RegistryModel, now: i64) -> Set<u128> {
    reg.offers.dom().filter(|e: u128| offer_open(reg.offers[e], now))
}

/// Whether an audit summary is the exact summary of `reg` over `event_count` facts at `now`.
pub open spec fn audit_of(audit: WorkerRegistryAudit, reg: RegistryModel, event_count: nat, now: i64) -> bool {
    &&& audit.schema_version == 1
    &&& audit.observed_at == now
    &&& audit.head_event_id == reg.last_event_id
    &&& audit.event_count == event_count
    &&& audit.worker_count == reg.worker_pools.len()
    &&& audit.disabled_worker_count == reg.disabled_workers.len()
    &&& audit.credential_count == reg.credentials.len()
    &&& audit.authorized_credential_count == authorized_credentials(reg, now).len()
    &&& audit.enrollment_count == reg.offers.len()
    &&& audit.open_enrollment_count == open_enrollments(reg, now).len()
}

proof fn lemma_filter_insert_len(s: Set<u128>, k: u128, p: spec_fn(u128) -> bool)
    requires
        s.finite(),
        !s.contains(k),
    ensures
        s.insert(k).finite(),
        s.insert(k).filter(p).len() == s.filter(p).len() + (if p(k) { 1int } else { 0int }),
{
    assert(s.filter(p).finite());
    if p(k) {
        assert(s.insert(k).filter(p) =~= s.filter(p).insert(k));
    } else {
        assert(s.insert(k).filter(p) =~= s.filter(p));
    }
}

/// The number of credentials that authorize their worker now.
fn count_authorized(registry: &EnrollmentRegistry) -> (r: usize)
    ensures
        r == authorized_credentials(registry.model(), registry.evaluated_at_spec()).len(),
{
    let tables = registry.tables();
    let now = registry.evaluated_at();
    let m = &tables.credentials;
    let ghost reg = registry.model();
    let ghost p = |k: u128| authorized_at(reg.credentials[k], reg.disabled_workers, now);
    let ghost v = m.iter().remaining();
    keys_in_order(m);
    let ghost mut seen: Set<u128> = Set::empty();
    let total = m.len();
    proof {
        assert(Set::<u128>::empty().filter(p) =~= Set::<u128>::empty());
        assert(v.len() == m@.dom().len());
    }
    let mut n: usize = 0;
    for kv in it: m.iter()
        invariant
            it.seq() == v,
            v == m.iter().remaining(),
            forall|i: int, j: int| 0 <= i < j < v.len() ==> *v[i].0 < *v[j].0,
            *m == tables.credentials,
            tables.model() == reg,
            p == (|k: u128| authorized_at(reg.credentials[k], reg.disabled_workers, now)),
            seen.finite(),
            forall|k: u128| #[trigger] seen.contains(k) <==> exists|j: int| 0 <= j < it.index() && *v[j].0 == k,
            n == seen.filter(p).len(),
            n <= it.index(),
            v.len() == total,
    {
        let (key, record) = kv;
        let ghost idx = it.index();
        proof {
            assert(m@.contains_key(*v[idx].0));
            assert(m@[*v[idx].0] == *v[idx].1);
            assert(!seen.contains(*key)) by {
                if seen.contains(*key) {
                    let j = choose|j: int| 0 <= j < idx && *v[j].0 == *key;
                    assert(*v[j].0 < *v[idx].0);
                }
            }
            lemma_filter_insert_len(seen, *key, p);
        }
        if crate::enrollment::registry::is_authorized_at(record, &tables.disabled_workers, now) {
            n = n + 1;
        }
        proof {
            seen = seen.insert(*key);
            assert forall|k: u128| #[trigger] seen.contains(k) <==> exists|j: int| 0 <= j < idx + 1 && *v[j].0 == k by {
                if k == *key {
                    assert(*v[idx].0 == k);
                }
            }
        }
    }
    proof {
        assert forall|k: u128| #[trigger] seen.contains(k) <==> m@.contains_key(k) by {
            if seen.contains(k) {
                let j = choose|j: int| 0 <= j < v.len() && *v[j].0 == k;
                assert(m@.contains_key(*v[j].0));
            }
            if m@.contains_key(k) {
                assert(v.contains((&k, &m@[k])));
                let j = choose|j: int| 0 <= j < v.len() && v[j] == (&k, &m@[k]);
                assert(*v[j].0 == k);
            }
        }
        assert(seen =~= m@.dom());
    }
    n
}

/// The number of offers that can still be redeemed now.
fn count_open_offers(registry: &EnrollmentRegistry) -> (r: usize)
    ensures
        r == open_enrollments(registry.model(), registry.evaluated_at_spec()).len(),
{
    let tables = registry.tables();
    let now = registry.evaluated_at();
    let m = &tables.offers;
    let ghost reg = registry.model();
    let ghost p = |e: u128| offer_open(reg.offers[e], now);
    let ghost v = m.iter().remaining();
    keys_in_order(m);
    let ghost mut seen: Set<u128> = Set::empty();
    let total = m.len();
    proof {
        assert(Set::<u128>::empty().filter(p) =~= Set::<u128>::empty());
        assert(v.len() == m@.dom().len());
    }
    let mut n: usize = 0;
    for kv in it: m.iter()
        invariant
            it.seq() == v,
            v == m.iter().remaining(),
            forall|i: int, j: int| 0 <= i < j < v.len() ==> *v[i].0 < *v[j].0,
            *m == tables.offers,
            tables.model() == reg,
            p == (|e: u128| offer_open(reg.offers[e], now)),
            seen.finite(),
            forall|k: u128| #[trigger] seen.contains(k) <==> exists|j: int| 0 <= j < it.index() && *v[j].0 == k,
            n == seen.filter(p).len(),
            n <= it.index(),
            v.len() == total,
    {
        let (key, offer) = kv;
        let ghost idx = it.index();
        proof {
            assert(m@.contains_key(*v[idx].0));
            assert(m@[*v[idx].0] == *v[idx].1);
            assert(!seen.contains(*key)) by {
                if seen.contains(*key) {
                    let j = choose|j: int| 0 <= j < idx && *v[j].0 == *key;
                    assert(*v[j].0 < *v[idx].0);
                }
            }
            lemma_filter_insert_len(seen, *key, p);
        }
        if !offer.revoked && offer.issued.is_none() && now < offer.expires_at {
            n = n + 1;
        }
        proof {
            seen = seen.insert(*key);
            assert forall|k: u128| #[trigger] seen.contains(k) <==> exists|j: int| 0 <= j < idx + 1 && *v[j].0 == k by {
                if k == *key {
                    assert(*v[idx].0 == k);
                }
            }
        }
    }
    proof {
        assert forall|k: u128| #[trigger] seen.contains(k) <==> m@.contains_key(k) by {
            if seen.contains(k) {
                let j = choose|j: int| 0 <= j < v.len() && *v[j].0 == k;
                assert(m@.contains_key(*v[j].0));
            }
            if m@.contains_key(k) {
                assert(v.contains((&k, &m@[k])));
                let j = choose|j: int| 0 <= j < v.len() && v[j] == (&k, &m@[k]);
                assert(*v[j].0 == k);
            }
        }
        assert(seen =~= m@.dom());
    }
    n
}

/// In a consistent registry, disabled workers are among the workers, authorized credentials
/// among the credentials, and open enrollments among the enrollments, so each count is bounded
/// by the one it refines.
pub proof fn lemma_audit_counts_bounded(reg: RegistryModel, now: i64)
    requires
        registry_invariant(reg),
    ensures
        reg.disabled_workers.len() <= reg.worker_pools.len(),
        authorized_credentials(reg, now).len() <= reg.credentials.len(),
        open_enrollments(reg, now).len() <= reg.offers.len(),
{
    assert(reg.disabled_workers.subset_of(reg.worker_pools.dom()));
    vstd::set_lib::lemma_len_subset(reg.disabled_workers, reg.worker_pools.dom());
    vstd::set_lib::lemma_len_subset(authorized_credentials(reg, now), reg.credentials.dom());
    vstd::set_lib::lemma_len_subset(open_enrollments(reg, now), reg.offers.dom());
}

/// The full-history audit summary of the registry at `now`.
pub fn audit_registry(history: &Vec<RegistryEventV1>, now: i64) -> (r: Result<WorkerRegistryAudit, EnrollmentError>)
    ensures
        match registry_of(history@) {
            Err(f) => r == Err::<WorkerRegistryAudit, EnrollmentError>(EnrollmentError::InvalidHistory(f)),
            Ok(reg) => r is Ok && audit_of(r->Ok_0, reg, history@.len(), now)
                && r->Ok_0.disabled_worker_count <= r->Ok_0.worker_count
                && r->Ok_0.authorized_credential_count <= r->Ok_0.credential_count
                && r->Ok_0.open_enrollment_count <= r->Ok_0.enrollment_count,
        },
{
    let registry = match project_history(history, now) {
        Ok(registry) => registry,
        Err(e) => return Err(e),
    };
    proof {
        lemma_audit_counts_bounded(registry.model(), now);
    }
    let tables = registry.tables();
    let authorized = count_authorized(&registry);
    let open = count_open_offers(&registry);
    Ok(WorkerRegistryAudit {
        schema_version: 1,
        observed_at: now,
        head_event_id: registry.last_event_id(),
        event_count: history.len() as u64,
        worker_count: tables.worker_pools.len() as u64,
        disabled_worker_count: tables.disabled_workers.len() as u64,
        credential_count: tables.credentials.len() as u64,
        authorized_credential_count: authorized as u64,
        enrollment_count: tables.offers.len() as u64,
        open_enrollment_count: open as u64,
    })
}

} // verus!
