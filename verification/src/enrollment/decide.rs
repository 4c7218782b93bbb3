use vstd::prelude::*;

use vstd::string::StringSliceAdditionalSpecFns;
use vstd::utf8::encode_utf8;

use crate::enrollment::digest::{bytes_ct_eq, digest_wire, hex_encoding, hex_wire, sha256, sha256_of};
use crate::enrollment::model::{
    EnrollmentError, EnrollmentPurposeV1, IssuedWorkerCredentialV1, RegistryEventV1, RegistryFactV1,
    RegistryModel, RegistryPayloadV1, RegistrySchemaV1, RequestFault, RegistryFault, active_predecessor,
    authorized_at, fact_schema, registry_of,
};
use crate::enrollment::project::schema_of;
use crate::enrollment::registry::{EnrollmentRegistry, is_authorized_at, project_history};

verus! {

/// Largest accepted certificate signing request, in bytes.
pub const MAX_CSR_PEM_BYTES: usize = 16384;

/// Durable result of one explicit registry lifecycle mutation.
#[derive(Clone, Copy, Debug, PartialEq, Eq, Structural)]
pub struct RegistryMutationOutcome {
    pub event_id: u128,
    pub was_replay: bool,
}

impl RegistryMutationOutcome {
    /// The exact lifecycle fact authorized by the command.
    pub fn event_id(self) -> (r: u128)
        ensures
            r == self.event_id,
    {
        self.event_id
    }

    /// Whether this call recovered an already committed exact command.
    pub fn was_replay(self) -> (r: bool)
        ensures
            r == self.was_replay,
    {
        self.was_replay
    }
}

/// A new registry fact, bound to the exact head and revision it extends.
#[derive(Debug, PartialEq, Eq)]
pub struct RegistryAppendV1 {
    pub parent_event_id: Option<u128>,
    /// Revision the stream must still have; `None` when the stream must not exist yet.
    pub expected_revision: Option<u64>,
    pub command_id: u128,
    pub observed_at: i64,
    pub fact: RegistryFactV1,
}

/// What one registry lifecycle command decided.
#[derive(Debug, PartialEq, Eq)]
pub enum RegistryMutationDecisionV1 {
    /// The exact command was already committed.
    Replayed(RegistryMutationOutcome),
    /// The command is new and legal; the caller appends this fact.
    Append(RegistryAppendV1),
}

/// Whether a committed fact is the same operation as the one requested. A pool assignment is
/// the same operation when it names the same worker and target pool.
pub open spec fn same_operation(prior: RegistryFactV1, expected: RegistryFactV1) -> bool {
    match (prior, expected) {
        (RegistryFactV1::CredentialRevoked { credential_id: a }, RegistryFactV1::CredentialRevoked { credential_id: b }) => a == b,
        (RegistryFactV1::WorkerDisabled { worker_id: a }, RegistryFactV1::WorkerDisabled { worker_id: b }) => a == b,
        (RegistryFactV1::WorkerEnabled { worker_id: a }, RegistryFactV1::WorkerEnabled { worker_id: b }) => a == b,
        (
            RegistryFactV1::WorkerPoolAssigned { worker_id: a, pool: p, .. },
            RegistryFactV1::WorkerPoolAssigned { worker_id: b, pool: q, .. },
        ) => a == b && p@ == q@,
        (RegistryFactV1::EnrollmentRevoked { enrollment_id: a }, RegistryFactV1::EnrollmentRevoked { enrollment_id: b }) => a == b,
        _ => false,
    }
}

/// Index of the first fact recorded under `command_id`, searching from `from`, or `-1`.
pub open spec fn first_registry_command(history: Seq<RegistryEventV1>, command_id: u128, from: int) -> int
    decreases history.len() - from,
{
    if from < 0 || from >= history.len() {
        -1
    } else if history[from].command_id == command_id {
        from
    } else {
        first_registry_command(history, command_id, from + 1)
    }
}

/// The answer a reused command identity owes: `None` when the identity is new, the recorded
/// outcome when it committed the same operation, a conflict otherwise.
pub open spec fn mutation_replay(history: Seq<RegistryEventV1>, command_id: u128, expected: RegistryFactV1) -> Result<
    Option<RegistryMutationOutcome>,
    EnrollmentError,
> {
    let i = first_registry_command(history, command_id, 0);
    if i < 0 {
        Ok(None)
    } else {
        let prior = history[i];
        match prior.payload {
            RegistryPayloadV1::Fact(f) => if fact_schema(f) != fact_schema(expected) || prior.schema_version != 1
                || !same_operation(f, expected) {
                Err(EnrollmentError::CommandConflict)
            } else {
                Ok(Some(RegistryMutationOutcome { event_id: prior.event_id, was_replay: true }))
            },
            RegistryPayloadV1::Undecodable(schema) => if schema != fact_schema(expected) || prior.schema_version != 1 {
                Err(EnrollmentError::CommandConflict)
            } else {
                Err(EnrollmentError::InvalidHistory(RegistryFault::PayloadUndecodable(schema)))
            },
            RegistryPayloadV1::Unsupported => Err(EnrollmentError::CommandConflict),
        }
    }
}

/// The fact a new command appends to the registry head.
pub open spec fn append_to(reg: RegistryModel, command_id: u128, observed_at: i64, fact: RegistryFactV1) -> RegistryAppendV1 {
    RegistryAppendV1 {
        parent_event_id: reg.last_event_id,
        expected_revision: reg.revision,
        command_id,
        observed_at,
        fact,
    }
}

/// The complete answer to one registry lifecycle command: project the history, answer a reused
/// command identity, then refuse the operation in the current registry or append its fact.
pub open spec fn mutation_spec(
    history: Seq<RegistryEventV1>,
    command_id: u128,
    observed_at: i64,
    expected: RegistryFactV1,
    refusal: spec_fn(RegistryModel) -> Option<EnrollmentError>,
    fact: spec_fn(RegistryModel) -> RegistryFactV1,
) -> Result<RegistryMutationDecisionV1, EnrollmentError> {
    match registry_of(history) {
        Err(f) => Err(EnrollmentError::InvalidHistory(f)),
        Ok(reg) => match mutation_replay(history, command_id, expected) {
            Err(e) => Err(e),
            Ok(Some(outcome)) => Ok(RegistryMutationDecisionV1::Replayed(outcome)),
            Ok(None) => match refusal(reg) {
                Some(e) => Err(e),
                None => Ok(RegistryMutationDecisionV1::Append(append_to(reg, command_id, observed_at, fact(reg)))),
            },
        },
    }
}

fn same_operation_exec(prior: &RegistryFactV1, expected: &RegistryFactV1) -> (r: bool)
    ensures
        r == same_operation(*prior, *expected),
{
    match (prior, expected) {
        (RegistryFactV1::CredentialRevoked { credential_id: a }, RegistryFactV1::CredentialRevoked { credential_id: b }) => *a == *b,
        (RegistryFactV1::WorkerDisabled { worker_id: a }, RegistryFactV1::WorkerDisabled { worker_id: b }) => *a == *b,
        (RegistryFactV1::WorkerEnabled { worker_id: a }, RegistryFactV1::WorkerEnabled { worker_id: b }) => *a == *b,
        (
            RegistryFactV1::WorkerPoolAssigned { worker_id: a, pool: p, .. },
            RegistryFactV1::WorkerPoolAssigned { worker_id: b, pool: q, .. },
        ) => *a == *b && *p == *q,
        (RegistryFactV1::EnrollmentRevoked { enrollment_id: a }, RegistryFactV1::EnrollmentRevoked { enrollment_id: b }) => *a == *b,
        _ => false,
    }
}

/// The answer a reused command identity owes (see `mutation_replay`).
pub fn find_mutation_replay(history: &Vec<RegistryEventV1>, command_id: u128, expected: &RegistryFactV1) -> (r: Result<
    Option<RegistryMutationOutcome>,
    EnrollmentError,
>)
    ensures
        r == mutation_replay(history@, command_id, *expected),
{
    let mut i: usize = 0;
    while i < history.len()
        invariant
            i <= history.len(),
            first_registry_command(history@, command_id, 0) == first_registry_command(history@, command_id, i as int),
        decreases history.len() - i,
    {
        let prior = &history[i];
        if prior.command_id == command_id {
            let schema = schema_of(expected);
            return match &prior.payload {
                RegistryPayloadV1::Fact(f) => {
                    if schema_of(f) != schema || prior.schema_version != 1 || !same_operation_exec(f, expected) {
                        Err(EnrollmentError::CommandConflict)
                    } else {
                        Ok(Some(RegistryMutationOutcome { event_id: prior.event_id, was_replay: true }))
                    }
                },
                RegistryPayloadV1::Undecodable(s) => {
                    if *s != schema || prior.schema_version != 1 {
                        Err(EnrollmentError::CommandConflict)
                    } else {
                        Err(EnrollmentError::InvalidHistory(RegistryFault::PayloadUndecodable(*s)))
                    }
                },
                RegistryPayloadV1::Unsupported => Err(EnrollmentError::CommandConflict),
            };
        }
        i = i + 1;
    }
    Ok(None)
}

/// First half of every registry command: the projected registry a new command continues from,
/// or the command's final answer.
fn open_mutation(history: &Vec<RegistryEventV1>, command_id: u128, now: i64, expected: &RegistryFactV1) -> (r: Result<
    EnrollmentRegistry,
    Result<RegistryMutationDecisionV1, EnrollmentError>,
>)
    ensures
        match registry_of(history@) {
            Err(f) => r == Err::<EnrollmentRegistry, Result<RegistryMutationDecisionV1, EnrollmentError>>(
                Err(EnrollmentError::InvalidHistory(f))),
            Ok(reg) => match mutation_replay(history@, command_id, *expected) {
                Err(e) => r == Err::<EnrollmentRegistry, Result<RegistryMutationDecisionV1, EnrollmentError>>(Err(e)),
                Ok(Some(o)) => r == Err::<EnrollmentRegistry, Result<RegistryMutationDecisionV1, EnrollmentError>>(
                    Ok(RegistryMutationDecisionV1::Replayed(o))),
                Ok(None) => r is Ok && r->Ok_0.model() == reg,
            },
        },
{
    let registry = match project_history(history, now) {
        Ok(registry) => registry,
        Err(e) => return Err(Err(e)),
    };
    match find_mutation_replay(history, command_id, expected) {
        Err(e) => Err(Err(e)),
        Ok(Some(outcome)) => Err(Ok(RegistryMutationDecisionV1::Replayed(outcome))),
        Ok(None) => Ok(registry),
    }
}

fn append_fact(registry: &EnrollmentRegistry, command_id: u128, observed_at: i64, fact: RegistryFactV1) -> (r:
    RegistryMutationDecisionV1)
    ensures
        r == RegistryMutationDecisionV1::Append(append_to(registry.model(), command_id, observed_at, fact)),
{
    RegistryMutationDecisionV1::Append(RegistryAppendV1 {
        parent_event_id: registry.last_event_id(),
        expected_revision: registry.revision(),
        command_id,
        observed_at,
        fact,
    })
}

/// A registry command whose appended fact is the requested one, whatever the registry holds.
pub open spec fn no_refusal_fact(fact: RegistryFactV1) -> spec_fn(RegistryModel) -> RegistryFactV1 {
    |reg: RegistryModel| fact
}

/// Refusal of a credential revocation: the credential must be retained and not yet revoked.
pub open spec fn revoke_credential_refusal(credential_id: u128) -> spec_fn(RegistryModel) -> Option<EnrollmentError> {
    |reg: RegistryModel| if !reg.credentials.contains_key(credential_id) || reg.credentials[credential_id].revoked {
        Some(EnrollmentError::CredentialNotActive)
    } else {
        None
    }
}

/// Explicitly revokes a credential that is retained and not yet revoked.
pub fn revoke_credential(history: &Vec<RegistryEventV1>, credential_id: u128, command_id: u128, now: i64) -> (r: Result<
    RegistryMutationDecisionV1,
    EnrollmentError,
>)
    ensures
        r == mutation_spec(history@, command_id, now, RegistryFactV1::CredentialRevoked { credential_id },
            revoke_credential_refusal(credential_id), no_refusal_fact(RegistryFactV1::CredentialRevoked { credential_id })),
{
    let fact = RegistryFactV1::CredentialRevoked { credential_id };
    let registry = match open_mutation(history, command_id, now, &fact) {
        Ok(registry) => registry,
        Err(answer) => return answer,
    };
    let active = match registry.tables().credentials.get(&credential_id) {
        Some(record) => !record.revoked,
        None => false,
    };
    if !active {
        return Err(EnrollmentError::CredentialNotActive);
    }
    Ok(append_fact(&registry, command_id, now, fact))
}

/// Refusal of a worker disablement: the worker must be known and enabled.
pub open spec fn disable_worker_refusal(worker_id: u128) -> spec_fn(RegistryModel) -> Option<EnrollmentError> {
    |reg: RegistryModel| if reg.disabled_workers.contains(worker_id) || !reg.worker_pools.contains_key(worker_id) {
        Some(EnrollmentError::WorkerNotActive)
    } else {
        None
    }
}

/// Disables a known, enabled worker: all its credentials stop authorizing it.
pub fn disable_worker(history: &Vec<RegistryEventV1>, worker_id: u128, command_id: u128, now: i64) -> (r: Result<
    RegistryMutationDecisionV1,
    EnrollmentError,
>)
    ensures
        r == mutation_spec(history@, command_id, now, RegistryFactV1::WorkerDisabled { worker_id },
            disable_worker_refusal(worker_id), no_refusal_fact(RegistryFactV1::WorkerDisabled { worker_id })),
{
    let fact = RegistryFactV1::WorkerDisabled { worker_id };
    let registry = match open_mutation(history, command_id, now, &fact) {
        Ok(registry) => registry,
        Err(answer) => return answer,
    };
    let tables = registry.tables();
    if tables.disabled_workers.contains(&worker_id) || !tables.worker_pools.contains_key(&worker_id) {
        return Err(EnrollmentError::WorkerNotActive);
    }
    Ok(append_fact(&registry, command_id, now, fact))
}

/// Refusal of a worker enablement: the worker must be disabled.
pub open spec fn enable_worker_refusal(worker_id: u128) -> spec_fn(RegistryModel) -> Option<EnrollmentError> {
    |reg: RegistryModel| if !reg.disabled_workers.contains(worker_id) {
        Some(EnrollmentError::WorkerNotDisabled)
    } else {
        None
    }
}

/// Re-enables a disabled worker.
pub fn enable_worker(history: &Vec<RegistryEventV1>, worker_id: u128, command_id: u128, now: i64) -> (r: Result<
    RegistryMutationDecisionV1,
    EnrollmentError,
>)
    ensures
        r == mutation_spec(history@, command_id, now, RegistryFactV1::WorkerEnabled { worker_id },
            enable_worker_refusal(worker_id), no_refusal_fact(RegistryFactV1::WorkerEnabled { worker_id })),
{
    let fact = RegistryFactV1::WorkerEnabled { worker_id };
    let registry = match open_mutation(history, command_id, now, &fact) {
        Ok(registry) => registry,
        Err(answer) => return answer,
    };
    if !registry.tables().disabled_workers.contains(&worker_id) {
        return Err(EnrollmentError::WorkerNotDisabled);
    }
    Ok(append_fact(&registry, command_id, now, fact))
}

/// Refusal of a pool assignment: the worker must be disabled and the pool must change.
pub open spec fn assign_pool_refusal(worker_id: u128, pool: String) -> spec_fn(RegistryModel) -> Option<EnrollmentError> {
    |reg: RegistryModel| if !reg.disabled_workers.contains(worker_id) || !reg.worker_pools.contains_key(worker_id) {
        Some(EnrollmentError::WorkerNotDisabled)
    } else if reg.worker_pools[worker_id].pool@ == pool@ {
        Some(EnrollmentError::WorkerPoolUnchanged)
    } else {
        None
    }
}

/// The pool assignment fact, naming the worker's current pool as the previous one.
pub open spec fn assign_pool_fact(worker_id: u128, pool: String) -> spec_fn(RegistryModel) -> RegistryFactV1 {
    |reg: RegistryModel| RegistryFactV1::WorkerPoolAssigned {
        worker_id,
        previous_pool: reg.worker_pools[worker_id].pool,
        pool,
    }
}

/// Moves a disabled worker to another scheduling pool.
pub fn assign_worker_pool(history: &Vec<RegistryEventV1>, worker_id: u128, pool: String, command_id: u128, now: i64) -> (r:
    Result<RegistryMutationDecisionV1, EnrollmentError>)
    ensures
        r == mutation_spec(history@, command_id, now,
            RegistryFactV1::WorkerPoolAssigned { worker_id, previous_pool: pool, pool },
            assign_pool_refusal(worker_id, pool), assign_pool_fact(worker_id, pool)),
{
    let expected = RegistryFactV1::WorkerPoolAssigned { worker_id, previous_pool: pool.clone(), pool: pool.clone() };
    let registry = match open_mutation(history, command_id, now, &expected) {
        Ok(registry) => registry,
        Err(answer) => return answer,
    };
    let tables = registry.tables();
    if !tables.disabled_workers.contains(&worker_id) {
        return Err(EnrollmentError::WorkerNotDisabled);
    }
    let previous_pool = match tables.worker_pools.get(&worker_id) {
        Some(assignment) => assignment.pool.clone(),
        None => return Err(EnrollmentError::WorkerNotDisabled),
    };
    if previous_pool == pool {
        return Err(EnrollmentError::WorkerPoolUnchanged);
    }
    Ok(append_fact(&registry, command_id, now, RegistryFactV1::WorkerPoolAssigned { worker_id, previous_pool, pool }))
}

/// Refusal of an enrollment revocation: the offer must be retained, unused and unrevoked.
pub open spec fn revoke_enrollment_refusal(enrollment_id: u128) -> spec_fn(RegistryModel) -> Option<EnrollmentError> {
    |reg: RegistryModel| if !reg.offers.contains_key(enrollment_id) {
        Some(EnrollmentError::InvalidAuthority)
    } else if reg.offers[enrollment_id].issued is Some {
        Some(EnrollmentError::EnrollmentAlreadyIssued)
    } else if reg.offers[enrollment_id].revoked {
        Some(EnrollmentError::Revoked)
    } else {
        None
    }
}

/// Revokes an enrollment offer that was neither used nor revoked.
pub fn revoke_enrollment(history: &Vec<RegistryEventV1>, enrollment_id: u128, command_id: u128, now: i64) -> (r: Result<
    RegistryMutationDecisionV1,
    EnrollmentError,
>)
    ensures
        r == mutation_spec(history@, command_id, now, RegistryFactV1::EnrollmentRevoked { enrollment_id },
            revoke_enrollment_refusal(enrollment_id), no_refusal_fact(RegistryFactV1::EnrollmentRevoked { enrollment_id })),
{
    let fact = RegistryFactV1::EnrollmentRevoked { enrollment_id };
    let registry = match open_mutation(history, command_id, now, &fact) {
        Ok(registry) => registry,
        Err(answer) => return answer,
    };
    match registry.tables().offers.get(&enrollment_id) {
        None => return Err(EnrollmentError::InvalidAuthority),
        Some(offer) => {
            if offer.issued.is_some() {
                return Err(EnrollmentError::EnrollmentAlreadyIssued);
            }
            if offer.revoked {
                return Err(EnrollmentError::Revoked);
            }
        },
    }
    Ok(append_fact(&registry, command_id, now, fact))
}

} // verus!
