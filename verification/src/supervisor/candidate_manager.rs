use vstd::prelude::*;

use crate::paths::resolve;
use crate::server::config::refused_with;
use crate::server::error::{ServerError, is_configuration_error};
use crate::supervisor::proposal_host::{HostProcessFactsV1, check_host_facts, host_config_fault};
use crate::paths::resolved;

verus! {

/// Upper bound of a Proposal Host process timeout, in milliseconds.
pub const HOST_TIMEOUT_MAX_MS: u64 = 86_400_000;

/// Upper bound of the bytes accepted from Proposal Host stdout or stderr.
pub const HOST_OUTPUT_MAX_BYTES: u64 = 2_097_152;

/// Upper bound of the Candidate manager's poll interval, in milliseconds.
pub const POLL_INTERVAL_MAX_MS: u64 = 60_000;

/// Maximum wall-clock duration of one exact Proposal Host child operation.
#[derive(Clone, Copy, Debug, PartialEq, Eq, Structural)]
pub struct ProposalHostProcessTimeoutMillis(u64);

impl ProposalHostProcessTimeoutMillis {
    /// The quantity.
    pub closed spec fn value(self) -> u64 {
        self.0
    }

    /// Creates a positive quantity within its current-V1 bound.
    pub fn new(value: u64) -> (r: Result<Self, ServerError>)
        ensures
            match r {
                Ok(q) => 0 < value <= HOST_TIMEOUT_MAX_MS && q.value() == value,
                Err(e) => !(0 < value <= HOST_TIMEOUT_MAX_MS) && is_configuration_error(e, "ProposalHostProcessTimeoutMillis is outside its positive current-V1 bound"@),
            },
    {
        if value == 0 || value > HOST_TIMEOUT_MAX_MS {
            Err(ServerError::Configuration("ProposalHostProcessTimeoutMillis is outside its positive current-V1 bound".to_owned()))
        } else {
            Ok(ProposalHostProcessTimeoutMillis(value))
        }
    }

    /// The quantity.
    pub fn get(self) -> (r: u64)
        ensures
            r == self.value(),
    {
        self.0
    }
}

/// Maximum canonical terminal bytes accepted from Proposal Host stdout.
#[derive(Clone, Copy, Debug, PartialEq, Eq, Structural)]
pub struct ProposalHostStdoutByteLimit(u64);

impl ProposalHostStdoutByteLimit {
    /// The quantity.
    pub closed spec fn value(self) -> u64 {
        self.0
    }

    /// Creates a positive quantity within its current-V1 bound.
    pub fn new(value: u64) -> (r: Result<Self, ServerError>)
        ensures
            match r {
                Ok(q) => 0 < value <= HOST_OUTPUT_MAX_BYTES && q.value() == value,
                Err(e) => !(0 < value <= HOST_OUTPUT_MAX_BYTES) && is_configuration_error(e, "ProposalHostStdoutByteLimit is outside its positive current-V1 bound"@),
            },
    {
        if value == 0 || value > HOST_OUTPUT_MAX_BYTES {
            Err(ServerError::Configuration("ProposalHostStdoutByteLimit is outside its positive current-V1 bound".to_owned()))
        } else {
            Ok(ProposalHostStdoutByteLimit(value))
        }
    }

    /// The quantity.
    pub fn get(self) -> (r: u64)
        ensures
            r == self.value(),
    {
        self.0
    }
}

/// Maximum observational diagnostic bytes retained from Proposal Host stderr.
#[derive(Clone, Copy, Debug, PartialEq, Eq, Structural)]
pub struct ProposalHostStderrByteLimit(u64);

impl ProposalHostStderrByteLimit {
    /// The quantity.
    pub closed spec fn value(self) -> u64 {
        self.0
    }

    /// Creates a positive quantity within its current-V1 bound.
    pub fn new(value: u64) -> (r: Result<Self, ServerError>)
        ensures
            match r {
                Ok(q) => 0 < value <= HOST_OUTPUT_MAX_BYTES && q.value() == value,
                Err(e) => !(0 < value <= HOST_OUTPUT_MAX_BYTES) && is_configuration_error(e, "ProposalHostStderrByteLimit is outside its positive current-V1 bound"@),
            },
    {
        if value == 0 || value > HOST_OUTPUT_MAX_BYTES {
            Err(ServerError::Configuration("ProposalHostStderrByteLimit is outside its positive current-V1 bound".to_owned()))
        } else {
            Ok(ProposalHostStderrByteLimit(value))
        }
    }

    /// The quantity.
    pub fn get(self) -> (r: u64)
        ensures
            r == self.value(),
    {
        self.0
    }
}

/// Delay between recovery checks while one managed Worker attempt is active.
#[derive(Clone, Copy, Debug, PartialEq, Eq, Structural)]
pub struct CandidateWorkflowPollIntervalMillis(u64);

impl CandidateWorkflowPollIntervalMillis {
    /// The quantity.
    pub closed spec fn value(self) -> u64 {
        self.0
    }

    /// Creates a positive quantity within its current-V1 bound.
    pub fn new(value: u64) -> (r: Result<Self, ServerError>)
        ensures
            match r {
                Ok(q) => 0 < value <= POLL_INTERVAL_MAX_MS && q.value() == value,
                Err(e) => !(0 < value <= POLL_INTERVAL_MAX_MS) && is_configuration_error(e, "CandidateWorkflowPollIntervalMillis is outside its positive current-V1 bound"@),
            },
    {
        if value == 0 || value > POLL_INTERVAL_MAX_MS {
            Err(ServerError::Configuration("CandidateWorkflowPollIntervalMillis is outside its positive current-V1 bound".to_owned()))
        } else {
            Ok(CandidateWorkflowPollIntervalMillis(value))
        }
    }

    /// The quantity.
    pub fn get(self) -> (r: u64)
        ensures
            r == self.value(),
    {
        self.0
    }
}

/// Proposal Host failure categories that forbid an implicit replacement episode.
#[derive(Clone, Copy, Debug, PartialEq, Eq, Structural)]
pub enum ProposalHostProcessBlockedV1 {
    InvocationDrift,
    TimedOut,
    ExitFailure,
    StdoutLimitExceeded,
    StderrLimitExceeded,
    InvalidTerminal,
}

/// A blocked Proposal Host run and its diagnostic.
#[derive(Debug, PartialEq, Eq)]
pub struct HostProcessFailure {
    pub reason: ProposalHostProcessBlockedV1,
    pub diagnostic: String,
}

/// A failed pipe, wait or drain of the Host process.
pub fn io_failure(diagnostic: String) -> (r: HostProcessFailure)
    ensures
        r == (HostProcessFailure { reason: ProposalHostProcessBlockedV1::ExitFailure, diagnostic }),
{
    HostProcessFailure { reason: ProposalHostProcessBlockedV1::ExitFailure, diagnostic }
}

/// Strict current-V1 process policy for the generic Proposal Host.
#[derive(Debug, PartialEq, Eq)]
pub struct ProposalHostProcessConfigV1 {
    pub executable: String,
    pub state_root: String,
    pub resolved_runtime_model: String,
    pub process_timeout_ms: ProposalHostProcessTimeoutMillis,
    pub stdout_byte_limit: ProposalHostStdoutByteLimit,
    pub stderr_byte_limit: ProposalHostStderrByteLimit,
}

impl ProposalHostProcessConfigV1 {
    /// Checks the Proposal Host configuration before any process or model access: the executable
    /// must name an existing regular file, then its binary identity and the resolved runtime
    /// model must be derivable under the configured policy.
    pub fn validate(&self, facts: &HostProcessFactsV1) -> (r: Result<(), ServerError>)
        ensures
            match host_config_fault(*facts) {
                None => r is Ok,
                Some(refusal) => r is Err && refused_with(r->Err_0, refusal),
            },
    {
        check_host_facts(facts)
    }

    /// Resolves the configured paths against the configuration file's directory.
    pub fn resolve_paths(&mut self, base: &str)
        ensures
            final(self).executable@ == resolved(old(self).executable@, base@),
            final(self).state_root@ == resolved(old(self).state_root@, base@),
            final(self).resolved_runtime_model@ == resolved(old(self).resolved_runtime_model@, base@),
            final(self).process_timeout_ms == old(self).process_timeout_ms,
            final(self).stdout_byte_limit == old(self).stdout_byte_limit,
            final(self).stderr_byte_limit == old(self).stderr_byte_limit,
    {
        resolve(&mut self.executable, base);
        resolve(&mut self.state_root, base);
        resolve(&mut self.resolved_runtime_model, base);
    }
}

/// What the caller observed of one Proposal Host child process.
#[derive(Clone, Copy, Debug, PartialEq, Eq, Structural)]
pub enum HostRunV1 {
    /// The durable invocation marker, binary or resolved model changed.
    Drifted,
    /// The encoded request exceeds the ingress limit; nothing was spawned.
    RequestTooLarge,
    /// Spawning, piping, writing, waiting or draining failed.
    ProcessFailed,
    /// The process exceeded its wall-clock limit and was killed.
    TimedOut,
    /// The process exited; its output sizes, status, and whether stdout is one canonical terminal
    /// bound to the request.
    Exited { success: bool, stdout_len: u64, stderr_len: u64, bound_terminal: bool },
}

/// The classification of one Proposal Host run under its byte limits.
pub open spec fn host_run_result(run: HostRunV1, stdout_limit: u64, stderr_limit: u64) -> Result<(), ProposalHostProcessBlockedV1> {
    match run {
        HostRunV1::Drifted => Err(ProposalHostProcessBlockedV1::InvocationDrift),
        HostRunV1::RequestTooLarge => Err(ProposalHostProcessBlockedV1::InvalidTerminal),
        HostRunV1::ProcessFailed => Err(ProposalHostProcessBlockedV1::ExitFailure),
        HostRunV1::TimedOut => Err(ProposalHostProcessBlockedV1::TimedOut),
        HostRunV1::Exited { success, stdout_len, stderr_len, bound_terminal } => if stdout_len > stdout_limit {
            Err(ProposalHostProcessBlockedV1::StdoutLimitExceeded)
        } else if stderr_len > stderr_limit {
            Err(ProposalHostProcessBlockedV1::StderrLimitExceeded)
        } else if !success {
            Err(ProposalHostProcessBlockedV1::ExitFailure)
        } else if !bound_terminal {
            Err(ProposalHostProcessBlockedV1::InvalidTerminal)
        } else {
            Ok(())
        },
    }
}

/// Classifies one Proposal Host run: only a successful exit within both byte limits with one
/// canonical terminal bound to the request is accepted.
pub fn classify_host_run(run: HostRunV1, config: &ProposalHostProcessConfigV1) -> (r: Result<(), ProposalHostProcessBlockedV1>)
    ensures
        r == host_run_result(run, config.stdout_byte_limit.value(), config.stderr_byte_limit.value()),
{
    let stdout_limit = config.stdout_byte_limit.get();
    let stderr_limit = config.stderr_byte_limit.get();
    match run {
        HostRunV1::Drifted => Err(ProposalHostProcessBlockedV1::InvocationDrift),
        HostRunV1::RequestTooLarge => Err(ProposalHostProcessBlockedV1::InvalidTerminal),
        HostRunV1::ProcessFailed => Err(ProposalHostProcessBlockedV1::ExitFailure),
        HostRunV1::TimedOut => Err(ProposalHostProcessBlockedV1::TimedOut),
        HostRunV1::Exited { success, stdout_len, stderr_len, bound_terminal } => {
            if stdout_len > stdout_limit {
                Err(ProposalHostProcessBlockedV1::StdoutLimitExceeded)
            } else if stderr_len > stderr_limit {
                Err(ProposalHostProcessBlockedV1::StderrLimitExceeded)
            } else if !success {
                Err(ProposalHostProcessBlockedV1::ExitFailure)
            } else if !bound_terminal {
                Err(ProposalHostProcessBlockedV1::InvalidTerminal)
            } else {
                Ok(())
            }
        },
    }
}

/// One explicitly configured, already-opened Candidate workflow supervised by the Controller.
#[derive(Debug, PartialEq, Eq)]
pub struct CandidateWorkflowManagerConfigV1 {
    pub schema_version: u32,
    pub task_id: u128,
    pub proposal_host: ProposalHostProcessConfigV1,
    pub poll_interval_ms: CandidateWorkflowPollIntervalMillis,
}

impl CandidateWorkflowManagerConfigV1 {
    /// Checks the schema version alone, before any file the configuration names is read.
    pub fn validate_schema(&self) -> (r: Result<(), ServerError>)
        ensures
            self.schema_version == 1 ==> r is Ok,
            self.schema_version != 1 ==> r is Err && is_configuration_error(
                r->Err_0,
                "only Candidate workflow manager schema_version 1 is supported"@,
            ),
    {
        if self.schema_version != 1 {
            return Err(ServerError::Configuration("only Candidate workflow manager schema_version 1 is supported".to_owned()));
        }
        Ok(())
    }

    /// Checks the manager configuration before any process or model access: current-V1 schema
    /// first, then the Proposal Host configuration.
    pub fn validate(&self, facts: &HostProcessFactsV1) -> (r: Result<(), ServerError>)
        ensures
            self.schema_version != 1 ==> r is Err && is_configuration_error(
                r->Err_0,
                "only Candidate workflow manager schema_version 1 is supported"@,
            ),
            self.schema_version == 1 ==> match host_config_fault(*facts) {
                None => r is Ok,
                Some(refusal) => r is Err && refused_with(r->Err_0, refusal),
            },
    {
        match self.validate_schema() {
            Err(e) => return Err(e),
            Ok(()) => {},
        }
        self.proposal_host.validate(facts)
    }

    /// Resolves the Proposal Host paths against the configuration file's directory.
    pub fn resolve_paths(&mut self, base: &str)
        ensures
            final(self).proposal_host.executable@ == resolved(old(self).proposal_host.executable@, base@),
            final(self).proposal_host.state_root@ == resolved(old(self).proposal_host.state_root@, base@),
            final(self).proposal_host.resolved_runtime_model@ == resolved(old(self).proposal_host.resolved_runtime_model@, base@),
            final(self).schema_version == old(self).schema_version,
            final(self).task_id == old(self).task_id,
            final(self).poll_interval_ms == old(self).poll_interval_ms,
    {
        self.proposal_host.resolve_paths(base);
    }
}

/// A failure of the manager's own durable work.
pub fn manager_error(message: String) -> (r: ServerError)
    ensures
        r == ServerError::MigrationWorkflow(message),
{
    ServerError::MigrationWorkflow(message)
}

/// Result of consuming at most one action selected by the durable Candidate workflow.
#[derive(Clone, Copy, Debug, PartialEq, Eq, Structural)]
pub enum TransitionOutcomeV1 {
    /// The workflow moved: either the transition committed or a concurrent manager moved it.
    Advanced,
    /// The transition failed and the durable state is unchanged.
    Failed,
}

/// A failed transition counts as progress when recovery shows the workflow moved anyway.
pub fn transition_or_recover(transition_succeeded: bool, recovered_equals_prior: bool) -> (r: TransitionOutcomeV1)
    ensures
        r == (if transition_succeeded || !recovered_equals_prior { TransitionOutcomeV1::Advanced } else { TransitionOutcomeV1::Failed }),
{
    if transition_succeeded || !recovered_equals_prior {
        TransitionOutcomeV1::Advanced
    } else {
        TransitionOutcomeV1::Failed
    }
}

} // verus!
