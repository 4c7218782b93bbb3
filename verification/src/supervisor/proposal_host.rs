use vstd::prelude::*;

use vstd::string::StringSliceAdditionalSpecFns;
use crate::enrollment::digest::{ascii_string, hex_digits, hex_encoding, sha256, sha256_of};
use crate::paths::resolve;
use crate::server::config::{ConfigRefusal, refused_with};
use crate::server::error::{ServerError, is_configuration_error};
use crate::paths::resolved;

verus! {

/// Upper bound of a Proposal Host process timeout, in milliseconds.
pub const HOST_TIMEOUT_MAX_MS: u64 = 86_400_000;

/// Upper bound of the bytes accepted from Proposal Host stdout or stderr.
pub const HOST_OUTPUT_MAX_BYTES: u64 = 2_097_152;

/// Largest encoded Proposal Host request, in bytes.
pub const HOST_REQUEST_BYTE_LIMIT: usize = 2_097_152;

/// Maximum wall-clock duration of one exact Proposal Host child operation.
#[derive(Clone, Copy, Debug, PartialEq, Eq, Structural)]
pub struct ProposalHostProcessTimeoutMillis(u64);

impl ProposalHostProcessTimeoutMillis {
    /// The quantity.
    pub closed spec fn value(self) -> u64 {
        self.0
    }

    /// Creates a positive quantity within its current-V1 bound.
    pub fn new(value: u64) -> (r: Result<Self, ServerError>)
        ensures
            match r {
                Ok(q) => 0 < value <= HOST_TIMEOUT_MAX_MS && q.value() == value,
                Err(e) => !(0 < value <= HOST_TIMEOUT_MAX_MS) && is_configuration_error(e, "ProposalHostProcessTimeoutMillis is outside its positive current-V1 bound"@),
            },
    {
        if value == 0 || value > HOST_TIMEOUT_MAX_MS {
            Err(ServerError::Configuration("ProposalHostProcessTimeoutMillis is outside its positive current-V1 bound".to_owned()))
        } else {
            Ok(ProposalHostProcessTimeoutMillis(value))
        }
    }

    /// The quantity.
    pub fn get(self) -> (r: u64)
        ensures
            r == self.value(),
    {
        self.0
    }
}

/// Maximum canonical terminal bytes accepted from Proposal Host stdout.
#[derive(Clone, Copy, Debug, PartialEq, Eq, Structural)]
pub struct ProposalHostStdoutByteLimit(u64);

impl ProposalHostStdoutByteLimit {
    /// The quantity.
    pub closed spec fn value(self) -> u64 {
        self.0
    }

    /// Creates a positive quantity within its current-V1 bound.
    pub fn new(value: u64) -> (r: Result<Self, ServerError>)
        ensures
            match r {
                Ok(q) => 0 < value <= HOST_OUTPUT_MAX_BYTES && q.value() == value,
                Err(e) => !(0 < value <= HOST_OUTPUT_MAX_BYTES) && is_configuration_error(e, "ProposalHostStdoutByteLimit is outside its positive current-V1 bound"@),
            },
    {
        if value == 0 || value > HOST_OUTPUT_MAX_BYTES {
            Err(ServerError::Configuration("ProposalHostStdoutByteLimit is outside its positive current-V1 bound".to_owned()))
        } else {
            Ok(ProposalHostStdoutByteLimit(value))
        }
    }

    /// The quantity.
    pub fn get(self) -> (r: u64)
        ensures
            r == self.value(),
    {
        self.0
    }
}

/// Maximum observational diagnostic bytes retained from Proposal Host stderr.
#[derive(Clone, Copy, Debug, PartialEq, Eq, Structural)]
pub struct ProposalHostStderrByteLimit(u64);

impl ProposalHostStderrByteLimit {
    /// The quantity.
    pub closed spec fn value(self) -> u64 {
        self.0
    }

    /// Creates a positive quantity within its current-V1 bound.
    pub fn new(value: u64) -> (r: Result<Self, ServerError>)
        ensures
            match r {
                Ok(q) => 0 < value <= HOST_OUTPUT_MAX_BYTES && q.value() == value,
                Err(e) => !(0 < value <= HOST_OUTPUT_MAX_BYTES) && is_configuration_error(e, "ProposalHostStderrByteLimit is outside its positive current-V1 bound"@),
            },
    {
        if value == 0 || value > HOST_OUTPUT_MAX_BYTES {
            Err(ServerError::Configuration("ProposalHostStderrByteLimit is outside its positive current-V1 bound".to_owned()))
        } else {
            Ok(ProposalHostStderrByteLimit(value))
        }
    }

    /// The quantity.
    pub fn get(self) -> (r: u64)
        ensures
            r == self.value(),
    {
        self.0
    }
}

/// Proposal Host failure categories that forbid an implicit replacement episode.
#[derive(Clone, Copy, Debug, PartialEq, Eq, Structural)]
pub enum ProposalHostProcessBlockedV1 {
    InvocationDrift,
    TimedOut,
    ExitFailure,
    StdoutLimitExceeded,
    StderrLimitExceeded,
    InvalidTerminal,
}

/// A blocked Proposal Host run and its diagnostic.
#[derive(Debug, PartialEq, Eq)]
pub struct HostProcessFailure {
    pub reason: ProposalHostProcessBlockedV1,
    pub diagnostic: String,
}

/// A failed pipe, wait or drain of the Host process.
pub fn io_failure(diagnostic: String) -> (r: HostProcessFailure)
    ensures
        r == (HostProcessFailure { reason: ProposalHostProcessBlockedV1::ExitFailure, diagnostic }),
{
    HostProcessFailure { reason: ProposalHostProcessBlockedV1::ExitFailure, diagnostic }
}

/// Strict current-V1 process policy for the generic Proposal Host.
#[derive(Debug, PartialEq, Eq)]
pub struct ProposalHostProcessConfigV1 {
    pub executable: String,
    pub state_root: String,
    pub resolved_runtime_model: String,
    pub process_timeout_ms: ProposalHostProcessTimeoutMillis,
    pub stdout_byte_limit: ProposalHostStdoutByteLimit,
    pub stderr_byte_limit: ProposalHostStderrByteLimit,
}

/// What the caller established about a Proposal Host configuration on disk, in the order the
/// checks read it.
#[derive(Debug, PartialEq, Eq)]
pub struct HostProcessFactsV1 {
    pub executable_is_file: bool,
    /// Deriving the identity of the executable's bytes.
    pub binary_identity: Result<(), ServerError>,
    /// Reading the resolved runtime model and matching it against the configured policy.
    pub resolved_model: Result<(), ServerError>,
}

/// The first refusal of a Proposal Host configuration, if any.
pub open spec fn host_config_fault(facts: HostProcessFactsV1) -> Option<ConfigRefusal> {
    if !facts.executable_is_file {
        Some(ConfigRefusal::Message("Proposal Host executable must name an existing regular file"@))
    } else if facts.binary_identity is Err {
        Some(ConfigRefusal::Relayed(facts.binary_identity->Err_0))
    } else if facts.resolved_model is Err {
        Some(ConfigRefusal::Relayed(facts.resolved_model->Err_0))
    } else {
        None
    }
}

/// Applies the Proposal Host configuration checks in order.
pub fn check_host_facts(facts: &HostProcessFactsV1) -> (r: Result<(), ServerError>)
    ensures
        match host_config_fault(*facts) {
            None => r is Ok,
            Some(refusal) => r is Err && refused_with(r->Err_0, refusal),
        },
{
    if !facts.executable_is_file {
        return Err(ServerError::Configuration("Proposal Host executable must name an existing regular file".to_owned()));
    }
    match &facts.binary_identity {
        Err(e) => return Err(e.duplicate()),
        Ok(()) => {},
    }
    match &facts.resolved_model {
        Err(e) => Err(e.duplicate()),
        Ok(()) => Ok(()),
    }
}

impl ProposalHostProcessConfigV1 {
    /// Checks the Proposal Host configuration before any process or model access: the executable
    /// must name an existing regular file, then its binary identity and the resolved runtime
    /// model must be derivable under the configured policy.
    pub fn validate(&self, facts: &HostProcessFactsV1) -> (r: Result<(), ServerError>)
        ensures
            match host_config_fault(*facts) {
                None => r is Ok,
                Some(refusal) => r is Err && refused_with(r->Err_0, refusal),
            },
    {
        check_host_facts(facts)
    }

    /// Resolves the configured paths against the configuration file's directory.
    pub fn resolve_paths(&mut self, base: &str)
        ensures
            final(self).executable@ == resolved(old(self).executable@, base@),
            final(self).state_root@ == resolved(old(self).state_root@, base@),
            final(self).resolved_runtime_model@ == resolved(old(self).resolved_runtime_model@, base@),
            final(self).process_timeout_ms == old(self).process_timeout_ms,
            final(self).stdout_byte_limit == old(self).stdout_byte_limit,
            final(self).stderr_byte_limit == old(self).stderr_byte_limit,
    {
        resolve(&mut self.executable, base);
        resolve(&mut self.state_root, base);
        resolve(&mut self.resolved_runtime_model, base);
    }
}

/// What the caller observed of one Proposal Host child process.
#[derive(Clone, Copy, Debug, PartialEq, Eq, Structural)]
pub enum HostRunV1 {
    /// The durable invocation marker, binary or resolved model changed.
    Drifted,
    /// The encoded request exceeds the ingress limit; nothing was spawned.
    RequestTooLarge,
    /// Spawning, piping, writing, waiting or draining failed.
    ProcessFailed,
    /// The process exceeded its wall-clock limit and was killed.
    TimedOut,
    /// The process exited; its output sizes, status, and whether stdout is one canonical terminal
    /// bound to the request.
    Exited { success: bool, stdout_len: u64, stderr_len: u64, bound_terminal: bool },
}

/// The classification of one Proposal Host run under its byte limits.
pub open spec fn host_run_result(run: HostRunV1, stdout_limit: u64, stderr_limit: u64) -> Result<(), ProposalHostProcessBlockedV1> {
    match run {
        HostRunV1::Drifted => Err(ProposalHostProcessBlockedV1::InvocationDrift),
        HostRunV1::RequestTooLarge => Err(ProposalHostProcessBlockedV1::InvalidTerminal),
        HostRunV1::ProcessFailed => Err(ProposalHostProcessBlockedV1::ExitFailure),
        HostRunV1::TimedOut => Err(ProposalHostProcessBlockedV1::TimedOut),
        HostRunV1::Exited { success, stdout_len, stderr_len, bound_terminal } => if stdout_len > stdout_limit {
            Err(ProposalHostProcessBlockedV1::StdoutLimitExceeded)
        } else if stderr_len > stderr_limit {
            Err(ProposalHostProcessBlockedV1::StderrLimitExceeded)
        } else if !success {
            Err(ProposalHostProcessBlockedV1::ExitFailure)
        } else if !bound_terminal {
            Err(ProposalHostProcessBlockedV1::InvalidTerminal)
        } else {
            Ok(())
        },
    }
}

/// Classifies one Proposal Host run: only a successful exit within both byte limits with one
/// canonical terminal bound to the request is accepted.
pub fn classify_host_run(run: HostRunV1, config: &ProposalHostProcessConfigV1) -> (r: Result<(), ProposalHostProcessBlockedV1>)
    ensures
        r == host_run_result(run, config.stdout_byte_limit.value(), config.stderr_byte_limit.value()),
{
    let stdout_limit = config.stdout_byte_limit.get();
    let stderr_limit = config.stderr_byte_limit.get();
    match run {
        HostRunV1::Drifted => Err(ProposalHostProcessBlockedV1::InvocationDrift),
        HostRunV1::RequestTooLarge => Err(ProposalHostProcessBlockedV1::InvalidTerminal),
        HostRunV1::ProcessFailed => Err(ProposalHostProcessBlockedV1::ExitFailure),
        HostRunV1::TimedOut => Err(ProposalHostProcessBlockedV1::TimedOut),
        HostRunV1::Exited { success, stdout_len, stderr_len, bound_terminal } => {
            if stdout_len > stdout_limit {
                Err(ProposalHostProcessBlockedV1::StdoutLimitExceeded)
            } else if stderr_len > stderr_limit {
                Err(ProposalHostProcessBlockedV1::StderrLimitExceeded)
            } else if !success {
                Err(ProposalHostProcessBlockedV1::ExitFailure)
            } else if !bound_terminal {
                Err(ProposalHostProcessBlockedV1::InvalidTerminal)
            } else {
                Ok(())
            }
        },
    }
}

/// The identity of a Proposal Host binary: `sha256:` and the lowercase hexadecimal SHA-256
/// digest of its contents.
pub fn binary_identity(contents: &[u8]) -> (r: String)
    ensures
        r@ == "sha256:"@ + Seq::new(64, |i: int| hex_encoding(sha256_of(contents@)@)[i] as char),
{
    let digest = sha256(contents);
    let hex = hex_digits(&digest);
    let mut text: Vec<u8> = Vec::new();
    text.push(115);
    text.push(104);
    text.push(97);
    text.push(50);
    text.push(53);
    text.push(54);
    text.push(58);
    let mut i: usize = 0;
    while i < hex.len()
        invariant
            hex@ == hex_encoding(digest@),
            forall|j: int| 0 <= j < hex@.len() ==> hex@[j] < 128,
            i <= hex@.len(),
            text@ == seq![115u8, 104, 97, 50, 53, 54, 58] + hex@.take(i as int),
        decreases hex@.len() - i,
    {
        text.push(hex[i]);
        assert(hex@.take(i as int + 1) == hex@.take(i as int).push(hex@[i as int]));
        i = i + 1;
    }
    assert(hex@.take(i as int) == hex@);
    assert forall|j: int| 0 <= j < text@.len() implies text@[j] < 128 by {
        if j >= 7 {
            assert(text@[j] == hex@[j - 7]);
        }
    }
    let r = ascii_string(text.as_slice());
    proof {
        reveal_strlit("sha256:");
        assert(r@ =~= "sha256:"@ + Seq::new(64, |i: int| hex_encoding(sha256_of(contents@)@)[i] as char));
    }
    r
}

/// A failure of the configuration the Host runs under.
pub fn configuration_error(message: String) -> (r: ServerError)
    ensures
        r == ServerError::Configuration(message),
{
    ServerError::Configuration(message)
}

/// A failure of the Host supervisor's own durable work.
pub fn supervisor_error(message: String) -> (r: ServerError)
    ensures
        r == ServerError::MigrationWorkflow(message),
{
    ServerError::MigrationWorkflow(message)
}

/// Whether two byte strings are equal.
pub fn same_bytes(a: &[u8], b: &[u8]) -> (r: bool)
    ensures
        r == (a@ == b@),
{
    if a.len() != b.len() {
        return false;
    }
    let mut i: usize = 0;
    while i < a.len()
        invariant
            a.len() == b.len(),
            i <= a.len(),
            forall|j: int| 0 <= j < i ==> a@[j] == b@[j],
        decreases a.len() - i,
    {
        if a[i] != b[i] {
            return false;
        }
        i = i + 1;
    }
    assert(a@ =~= b@);
    true
}

/// Checks a Host operation against its durable invocation before the process starts: the
/// episode's invocation marker must hold the request's runtime bytes and the configured binary
/// must have the runtime's identity; then the resolved model must have the runtime's model
/// identity. Any drift blocks the operation.
pub fn check_host_invocation(
    marker: &[u8],
    runtime: &[u8],
    binary: &str,
    runtime_binary: &str,
    model: u64,
    runtime_model: u64,
) -> (r: Result<(), HostProcessFailure>)
    ensures
        !(marker@ == runtime@ && binary.spec_bytes() == runtime_binary.spec_bytes()) ==> (r matches Err(f)
            && f.reason == ProposalHostProcessBlockedV1::InvocationDrift
            && f.diagnostic@ == "Proposal Host process state or binary changed the durable invocation"@),
        (marker@ == runtime@ && binary.spec_bytes() == runtime_binary.spec_bytes() && model != runtime_model) ==> (r matches Err(
            f,
        ) && f.reason == ProposalHostProcessBlockedV1::InvocationDrift
            && f.diagnostic@ == "resolved runtime model changed the durable Host invocation"@),
        (marker@ == runtime@ && binary.spec_bytes() == runtime_binary.spec_bytes() && model == runtime_model) ==> r is Ok,
{
    if !same_bytes(marker, runtime) || !same_bytes(binary.as_bytes(), runtime_binary.as_bytes()) {
        return Err(HostProcessFailure {
            reason: ProposalHostProcessBlockedV1::InvocationDrift,
            diagnostic: "Proposal Host process state or binary changed the durable invocation".to_owned(),
        });
    }
    if model != runtime_model {
        return Err(HostProcessFailure {
            reason: ProposalHostProcessBlockedV1::InvocationDrift,
            diagnostic: "resolved runtime model changed the durable Host invocation".to_owned(),
        });
    }
    Ok(())
}

/// Checks an encoded Host request against the current-V1 ingress limit before anything is
/// spawned: a larger request blocks the operation as an invalid terminal.
pub fn check_request_size(len: usize) -> (r: Result<(), HostProcessFailure>)
    ensures
        len <= HOST_REQUEST_BYTE_LIMIT ==> r is Ok,
        len > HOST_REQUEST_BYTE_LIMIT ==> (r matches Err(f) && f.reason == ProposalHostProcessBlockedV1::InvalidTerminal
            && f.diagnostic@ == "Proposal Host request exceeds the current-V1 ingress limit"@),
{
    if len > HOST_REQUEST_BYTE_LIMIT {
        Err(HostProcessFailure {
            reason: ProposalHostProcessBlockedV1::InvalidTerminal,
            diagnostic: "Proposal Host request exceeds the current-V1 ingress limit".to_owned(),
        })
    } else {
        Ok(())
    }
}

} // verus!
