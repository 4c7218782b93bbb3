use vstd::prelude::*;

use vstd::string::StringSliceAdditionalSpecFns;
use vstd::utf8::{encode_utf8, is_char_boundary};

use crate::enrollment::model::EnrolledWorker;
use crate::enrollment::registry::{EnrollmentRegistry, enrolled_by_fingerprint};
use crate::server::error::ServerError;

verus! {

/// Why a worker's resource clock cannot be admitted.
#[derive(Clone, Copy, Debug, PartialEq, Eq, Structural)]
pub enum ClockLead {
    /// The lead does not fit the time range.
    Overflowed,
    /// The worker clock leads the controller by more than the configured tolerance.
    Exceeds { lead_ms: u64 },
}

/// The admitted observation time: the controller's time when the worker is not ahead, the
/// worker's time when its lead is within an explicit tolerance, and a refusal otherwise.
pub open spec fn admitted_time(controller_time: i64, worker_time: i64, tolerance_ms: Option<u64>) -> Result<i64, ClockLead> {
    if worker_time <= controller_time {
        Ok(controller_time)
    } else if worker_time - controller_time > i64::MAX {
        Err(ClockLead::Overflowed)
    } else {
        let lead = worker_time - controller_time;
        if tolerance_ms matches Some(t) && lead <= t {
            Ok(worker_time)
        } else {
            Err(ClockLead::Exceeds { lead_ms: lead as u64 })
        }
    }
}

/// Admits a worker resource observation time against the controller clock.
pub fn admitted_resource_observation_time(controller_time: i64, worker_time: i64, tolerance_ms: Option<u64>) -> (r:
    Result<i64, ClockLead>)
    ensures
        r == admitted_time(controller_time, worker_time, tolerance_ms),
{
    if worker_time <= controller_time {
        return Ok(controller_time);
    }
    let lead = match worker_time.checked_sub(controller_time) {
        Some(lead) => lead,
        None => return Err(ClockLead::Overflowed),
    };
    let lead_ms: u64 = lead as u64;
    match tolerance_ms {
        Some(tolerance) => {
            if lead_ms <= tolerance {
                Ok(worker_time)
            } else {
                Err(ClockLead::Exceeds { lead_ms })
            }
        },
        None => Err(ClockLead::Exceeds { lead_ms }),
    }
}

/// The last character boundary at or before `end`.
pub open spec fn boundary_at_or_before(bytes: Seq<u8>, end: int) -> int
    decreases end,
{
    if end <= 0 {
        0
    } else if is_char_boundary(bytes, end) {
        end
    } else {
        boundary_at_or_before(bytes, end - 1)
    }
}

/// The bytes of a diagnostic kept under an optional byte limit: the whole text when it fits,
/// otherwise the longest prefix that ends on a character boundary and fits.
pub open spec fn bounded_bytes(bytes: Seq<u8>, limit: Option<u64>) -> Seq<u8> {
    match limit {
        None => bytes,
        Some(l) => if l > usize::MAX || bytes.len() <= l {
            bytes
        } else {
            bytes.subrange(0, boundary_at_or_before(bytes, l as int))
        },
    }
}

/// Bounds a diagnostic to a byte limit without splitting a character.
pub fn bound(value: &str, limit: Option<u64>) -> (r: String)
    ensures
        encode_utf8(r@) == bounded_bytes(value.spec_bytes(), limit),
{
    let bytes = value.as_bytes();
    let l = match limit {
        None => return value.to_owned(),
        Some(l) => l,
    };
    if l > usize::MAX as u64 {
        return value.to_owned();
    }
    let l: usize = l as usize;
    if bytes.len() <= l {
        return value.to_owned();
    }
    proof {
        vstd::utf8::encode_utf8_valid_utf8(value@);
    }
    let mut end: usize = l;
    while !value.is_char_boundary(end)
        invariant
            0 <= end <= l,
            l < value.spec_bytes().len(),
            vstd::utf8::valid_utf8(value.spec_bytes()),
            boundary_at_or_before(value.spec_bytes(), end as int) == boundary_at_or_before(value.spec_bytes(), l as int),
        decreases end,
    {
        end = end - 1;
    }
    let (head, _) = value.split_at(end);
    head.to_owned()
}

/// The facts of a worker's first message that the handshake checks.
#[derive(Clone, Copy, Debug, PartialEq, Eq, Structural)]
pub struct WorkerHelloV1 {
    pub worker_id: u128,
    pub protocol_version: u32,
    /// Whether the advertised availability is already in canonical form.
    pub availability_canonical: bool,
    pub available_slots: u32,
    pub max_concurrency: u32,
    pub resource_observed_at: i64,
}

/// Why the controller refuses a worker connection, as told to the worker.
#[derive(Clone, Copy, Debug, PartialEq, Eq, Structural)]
pub enum ControllerRejectCode {
    InvalidHello,
    IdentityMismatch,
    UnsupportedProtocol,
}

/// How a worker handshake ends.
#[derive(Debug, PartialEq, Eq)]
pub enum HelloDecisionV1 {
    /// The worker is told why and the connection closes.
    Reject { code: ControllerRejectCode, diagnostic: &'static str },
    /// The connection closes without a reject message.
    Fail(ClockLead),
    /// The worker is admitted under its enrolled identity at the admitted time.
    Admit { worker: EnrolledWorker, accepted_at: i64 },
}

/// The handshake decision: a valid hello, from the worker the client certificate is enrolled
/// for, whose credential still authorizes it, speaking the configured protocol, with canonical
/// availability, and a resource clock the controller admits.
pub open spec fn hello_decision(
    enrolled: Option<EnrolledWorker>,
    authorized: bool,
    hello: Option<WorkerHelloV1>,
    protocol_version: u32,
    controller_time: i64,
    tolerance_ms: Option<u64>,
) -> HelloDecisionV1 {
    match hello {
        None => HelloDecisionV1::Reject {
            code: ControllerRejectCode::InvalidHello,
            diagnostic: "the first message must be a valid hello",
        },
        Some(h) => match enrolled {
            None => HelloDecisionV1::Reject {
                code: ControllerRejectCode::IdentityMismatch,
                diagnostic: "client certificate is not enrolled",
            },
            Some(worker) => if worker.worker_id != h.worker_id {
                HelloDecisionV1::Reject {
                    code: ControllerRejectCode::IdentityMismatch,
                    diagnostic: "certificate enrollment does not match worker_id",
                }
            } else if !authorized {
                HelloDecisionV1::Reject {
                    code: ControllerRejectCode::IdentityMismatch,
                    diagnostic: "worker credential is revoked or worker is disabled",
                }
            } else if h.protocol_version != protocol_version {
                HelloDecisionV1::Reject {
                    code: ControllerRejectCode::UnsupportedProtocol,
                    diagnostic: "worker protocol version is unsupported",
                }
            } else if !h.availability_canonical || h.available_slots > h.max_concurrency {
                HelloDecisionV1::Reject {
                    code: ControllerRejectCode::InvalidHello,
                    diagnostic: "hello availability is not canonical for the advertised profile",
                }
            } else {
                match admitted_time(controller_time, h.resource_observed_at, tolerance_ms) {
                    Err(lead) => HelloDecisionV1::Fail(lead),
                    Ok(accepted_at) => HelloDecisionV1::Admit { worker, accepted_at },
                }
            },
        },
    }
}

/// Decides a worker handshake against the current registry.
pub fn admit_worker_hello(
    registry: &EnrollmentRegistry,
    fingerprint: &[u8; 32],
    hello: Option<WorkerHelloV1>,
    protocol_version: u32,
    controller_time: i64,
    tolerance_ms: Option<u64>,
) -> (r: HelloDecisionV1)
    ensures
        ({
            let enrolled = enrolled_by_fingerprint(registry.model(), registry.evaluated_at_spec(), *fingerprint);
            r == hello_decision(
                enrolled,
                enrolled matches Some(w) && registry.model().credentials.contains_key(w.credential_id)
                    && registry.model().credentials[w.credential_id].enrolled.worker_id == w.worker_id
                    && crate::enrollment::model::authorized_at(
                    registry.model().credentials[w.credential_id],
                    registry.model().disabled_workers,
                    registry.evaluated_at_spec(),
                ),
                hello,
                protocol_version,
                controller_time,
                tolerance_ms,
            )
        }),
{
    let h = match hello {
        None => return HelloDecisionV1::Reject {
            code: ControllerRejectCode::InvalidHello,
            diagnostic: "the first message must be a valid hello",
        },
        Some(h) => h,
    };
    let worker = match registry.enrolled_worker(fingerprint) {
        None => return HelloDecisionV1::Reject {
            code: ControllerRejectCode::IdentityMismatch,
            diagnostic: "client certificate is not enrolled",
        },
        Some(worker) => worker,
    };
    if worker.worker_id != h.worker_id {
        return HelloDecisionV1::Reject {
            code: ControllerRejectCode::IdentityMismatch,
            diagnostic: "certificate enrollment does not match worker_id",
        };
    }
    if !registry.credential_is_authorized(worker.credential_id, worker.worker_id) {
        return HelloDecisionV1::Reject {
            code: ControllerRejectCode::IdentityMismatch,
            diagnostic: "worker credential is revoked or worker is disabled",
        };
    }
    if h.protocol_version != protocol_version {
        return HelloDecisionV1::Reject {
            code: ControllerRejectCode::UnsupportedProtocol,
            diagnostic: "worker protocol version is unsupported",
        };
    }
    if !h.availability_canonical || h.available_slots > h.max_concurrency {
        return HelloDecisionV1::Reject {
            code: ControllerRejectCode::InvalidHello,
            diagnostic: "hello availability is not canonical for the advertised profile",
        };
    }
    match admitted_resource_observation_time(controller_time, h.resource_observed_at, tolerance_ms) {
        Err(lead) => HelloDecisionV1::Fail(lead),
        Ok(accepted_at) => HelloDecisionV1::Admit { worker, accepted_at },
    }
}

/// Delay between authority and outbox checks while a worker session is idle: the outbox poll
/// interval when configured and shorter, otherwise the authority poll interval.
pub fn session_poll_interval(outbox_poll_interval_ms: Option<u64>, authority_poll_interval_ms: u64) -> (r: u64)
    ensures
        r == match outbox_poll_interval_ms {
            None => authority_poll_interval_ms,
            Some(o) => if o < authority_poll_interval_ms { o } else { authority_poll_interval_ms },
        },
{
    match outbox_poll_interval_ms {
        None => authority_poll_interval_ms,
        Some(o) => if o < authority_poll_interval_ms { o } else { authority_poll_interval_ms },
    }
}

/// The kind of one message a worker sends after the welcome.
#[derive(Clone, Copy, Debug, PartialEq, Eq, Structural)]
pub enum WorkerMessageKindV1 {
    Hello,
    Heartbeat,
    ResourcesObserved { observed_at: i64 },
    Control,
    MaterialChunkRequest,
}

/// What one turn of a live worker session does next.
#[derive(Clone, Copy, Debug, PartialEq, Eq, Structural)]
pub enum SessionActionV1 {
    /// Nothing arrived before the poll interval; check authority and the outbox again.
    Poll,
    RecordHeartbeat,
    RecordResources { accepted_at: i64 },
    AcceptControlFrame,
    ServeMaterialChunk,
    /// The session ends with this fault.
    End(SessionFaultV1),
}

/// Why a live worker session ends.
#[derive(Clone, Copy, Debug, PartialEq, Eq, Structural)]
pub enum SessionFaultV1 {
    AuthorityRevoked,
    HelloRepeated,
    ResourceClock(ClockLead),
}

/// One turn of a live worker session: authority is rechecked first, then the message, if any,
/// is dispatched.
pub open spec fn session_turn(
    authorized: bool,
    message: Option<WorkerMessageKindV1>,
    controller_time: i64,
    tolerance_ms: Option<u64>,
) -> SessionActionV1 {
    if !authorized {
        SessionActionV1::End(SessionFaultV1::AuthorityRevoked)
    } else {
        match message {
            None => SessionActionV1::Poll,
            Some(WorkerMessageKindV1::Hello) => SessionActionV1::End(SessionFaultV1::HelloRepeated),
            Some(WorkerMessageKindV1::Heartbeat) => SessionActionV1::RecordHeartbeat,
            Some(WorkerMessageKindV1::ResourcesObserved { observed_at }) => match admitted_time(
                controller_time,
                observed_at,
                tolerance_ms,
            ) {
                Ok(accepted_at) => SessionActionV1::RecordResources { accepted_at },
                Err(lead) => SessionActionV1::End(SessionFaultV1::ResourceClock(lead)),
            },
            Some(WorkerMessageKindV1::Control) => SessionActionV1::AcceptControlFrame,
            Some(WorkerMessageKindV1::MaterialChunkRequest) => SessionActionV1::ServeMaterialChunk,
        }
    }
}

/// Decides one turn of a live worker session.
pub fn controller_session_turn(
    authorized: bool,
    message: Option<WorkerMessageKindV1>,
    controller_time: i64,
    tolerance_ms: Option<u64>,
) -> (r: SessionActionV1)
    ensures
        r == session_turn(authorized, message, controller_time, tolerance_ms),
{
    if !authorized {
        return SessionActionV1::End(SessionFaultV1::AuthorityRevoked);
    }
    match message {
        None => SessionActionV1::Poll,
        Some(WorkerMessageKindV1::Hello) => SessionActionV1::End(SessionFaultV1::HelloRepeated),
        Some(WorkerMessageKindV1::Heartbeat) => SessionActionV1::RecordHeartbeat,
        Some(WorkerMessageKindV1::ResourcesObserved { observed_at }) => {
            match admitted_resource_observation_time(controller_time, observed_at, tolerance_ms) {
                Ok(accepted_at) => SessionActionV1::RecordResources { accepted_at },
                Err(lead) => SessionActionV1::End(SessionFaultV1::ResourceClock(lead)),
            }
        },
        Some(WorkerMessageKindV1::Control) => SessionActionV1::AcceptControlFrame,
        Some(WorkerMessageKindV1::MaterialChunkRequest) => SessionActionV1::ServeMaterialChunk,
    }
}

/// The durable state of the assignment a worker accepts.
#[derive(Clone, Copy, Debug, PartialEq, Eq, Structural)]
pub enum AssignmentStateKindV1 {
    NotFound,
    Leased,
    Accepted,
    Running,
    ExpiredBeforeStart,
    ReconciliationRequired,
    ExecutionTerminal,
}

/// What an accepted assignment requires of the controller.
#[derive(Clone, Copy, Debug, PartialEq, Eq, Structural)]
pub enum AcceptanceActionV1 {
    /// Record the acceptance, start the attempt, and enqueue its start message.
    AcceptAndStart,
    /// Start the already accepted attempt and enqueue its start message.
    Start,
    /// Re-enqueue the start message of the running attempt.
    EnqueueStart,
    /// The acceptance is a harmless duplicate.
    Ignore,
}

/// Why an assignment acceptance ends the session.
#[derive(Clone, Copy, Debug, PartialEq, Eq, Structural)]
pub enum AcceptanceFaultV1 {
    ClaimantDiffers,
    NoDurableAssignment,
    ConflictingBinding,
}

/// The action an assignment acceptance requires: the claimant must be the authenticated
/// session, and a duplicate acceptance must carry the recorded binding.
pub open spec fn acceptance_action(
    claimant_is_session: bool,
    state: AssignmentStateKindV1,
    binding_matches: bool,
) -> Result<AcceptanceActionV1, AcceptanceFaultV1> {
    if !claimant_is_session {
        Err(AcceptanceFaultV1::ClaimantDiffers)
    } else {
        match state {
            AssignmentStateKindV1::NotFound => Err(AcceptanceFaultV1::NoDurableAssignment),
            AssignmentStateKindV1::Leased => Ok(AcceptanceActionV1::AcceptAndStart),
            _ => if !binding_matches {
                Err(AcceptanceFaultV1::ConflictingBinding)
            } else {
                match state {
                    AssignmentStateKindV1::Accepted => Ok(AcceptanceActionV1::Start),
                    AssignmentStateKindV1::Running => Ok(AcceptanceActionV1::EnqueueStart),
                    _ => Ok(AcceptanceActionV1::Ignore),
                }
            },
        }
    }
}

/// Decides what an assignment acceptance from the worker requires.
pub fn decide_assignment_acceptance(
    claimant_is_session: bool,
    state: AssignmentStateKindV1,
    binding_matches: bool,
) -> (r: Result<AcceptanceActionV1, AcceptanceFaultV1>)
    ensures
        r == acceptance_action(claimant_is_session, state, binding_matches),
{
    if !claimant_is_session {
        return Err(AcceptanceFaultV1::ClaimantDiffers);
    }
    match state {
        AssignmentStateKindV1::NotFound => Err(AcceptanceFaultV1::NoDurableAssignment),
        AssignmentStateKindV1::Leased => Ok(AcceptanceActionV1::AcceptAndStart),
        _ => {
            if !binding_matches {
                return Err(AcceptanceFaultV1::ConflictingBinding);
            }
            match state {
                AssignmentStateKindV1::Accepted => Ok(AcceptanceActionV1::Start),
                AssignmentStateKindV1::Running => Ok(AcceptanceActionV1::EnqueueStart),
                _ => Ok(AcceptanceActionV1::Ignore),
            }
        },
    }
}

/// The acknowledgement the controller must send on its own: only when no frame carries it and
/// it advances past the last acknowledgement sent.
pub fn acknowledgement_only(acknowledges: Option<u64>, frames_empty: bool, acknowledgement_sent: Option<u64>) -> (r: Option<
    u64,
>)
    ensures
        r == match acknowledges {
            Some(v) => if frames_empty && (acknowledgement_sent matches Some(s) ==> v > s) {
                Some(v)
            } else {
                None
            },
            None => None,
        },
{
    match acknowledges {
        Some(v) => {
            let advances = match acknowledgement_sent {
                Some(s) => v > s,
                None => true,
            };
            if frames_empty && advances {
                Some(v)
            } else {
                None
            }
        },
        None => None,
    }
}

/// One frame written to the worker: its sequence and the peer sequence it acknowledges.
#[derive(Clone, Copy, Debug, PartialEq, Eq, Structural)]
pub struct SentFrameV1 {
    pub sequence: u64,
    pub acknowledges_peer_through: Option<u64>,
}

/// The delivery cursors after writing `frames` in order: the highest sequence sent and the last
/// acknowledgement sent.
pub open spec fn cursors_after(frames: Seq<SentFrameV1>, highest_sent: Option<u64>, acknowledgement_sent: Option<u64>) -> (
    Option<u64>,
    Option<u64>,
)
    decreases frames.len(),
{
    if frames.len() == 0 {
        (highest_sent, acknowledgement_sent)
    } else {
        let (h, a) = cursors_after(frames.drop_last(), highest_sent, acknowledgement_sent);
        let last = frames.last();
        (Some(last.sequence), if last.acknowledges_peer_through is Some { last.acknowledges_peer_through } else { a })
    }
}

/// Advances the delivery cursors over the frames written to the worker.
pub fn advance_cursors(frames: &Vec<SentFrameV1>, highest_sent: Option<u64>, acknowledgement_sent: Option<u64>) -> (r: (
    Option<u64>,
    Option<u64>,
))
    ensures
        r == cursors_after(frames@, highest_sent, acknowledgement_sent),
{
    let mut highest = highest_sent;
    let mut acknowledged = acknowledgement_sent;
    let mut i: usize = 0;
    while i < frames.len()
        invariant
            i <= frames@.len(),
            (highest, acknowledged) == cursors_after(frames@.take(i as int), highest_sent, acknowledgement_sent),
        decreases frames@.len() - i,
    {
        assert(frames@.take(i as int + 1).drop_last() == frames@.take(i as int));
        let frame = frames[i];
        highest = Some(frame.sequence);
        if frame.acknowledges_peer_through.is_some() {
            acknowledged = frame.acknowledges_peer_through;
        }
        i = i + 1;
    }
    assert(frames@.take(i as int) == frames@);
    (highest, acknowledged)
}

/// Whether an error is the session failure with the given diagnostic.
pub open spec fn is_session_error(error: ServerError, message: Seq<char>) -> bool {
    error matches ServerError::Session(m) && m@ == message
}

/// The enrolled worker a handshake admitted, looked up again in the registry evaluated at the
/// admitted time: the credential must still authorize the same worker.
pub fn reconfirm_enrolled_worker(registry: &EnrollmentRegistry, fingerprint: &[u8; 32], worker_id: u128) -> (r: Result<
    EnrolledWorker,
    ServerError,
>)
    ensures
        ({
            let enrolled = enrolled_by_fingerprint(registry.model(), registry.evaluated_at_spec(), *fingerprint);
            if enrolled is Some && enrolled->0.worker_id == worker_id {
                r == Ok::<EnrolledWorker, ServerError>(enrolled->0)
            } else {
                r is Err && is_session_error(r->Err_0, "worker credential lost registry authority during handshake"@)
            }
        }),
{
    match registry.enrolled_worker(fingerprint) {
        Some(w) => if w.worker_id == worker_id {
            Ok(w)
        } else {
            Err(ServerError::Session("worker credential lost registry authority during handshake".to_owned()))
        },
        None => Err(ServerError::Session("worker credential lost registry authority during handshake".to_owned())),
    }
}

} // verus!
