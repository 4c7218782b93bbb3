use vstd::prelude::*;

use crate::paths::{
    absolute_path, lemma_resolution_is_absolute_and_stable, path_eq, path_is_absolute, resolve, resolved, same_path,
};
use crate::server::config::{ConfigRefusal, refused_with};
use crate::server::error::{ServerError, is_configuration_error};

verus! {

/// Upper bound of an Intent Admission process timeout, in milliseconds.
pub const ADMISSION_TIMEOUT_MAX_MS: u64 = 86_400_000;

/// Upper bound of the bytes accepted from Intent Admission stdout or stderr.
pub const ADMISSION_OUTPUT_MAX_BYTES: u64 = 2_097_152;

/// Maximum wall-clock duration of one exact independent Admission operation.
#[derive(Clone, Copy, Debug, PartialEq, Eq, Structural)]
pub struct IntentAdmissionProcessTimeoutMillis(u64);

/// Maximum canonical public-outcome bytes accepted from Admission stdout.
#[derive(Clone, Copy, Debug, PartialEq, Eq, Structural)]
pub struct IntentAdmissionStdoutByteLimit(u64);

/// Maximum observational diagnostic bytes retained from Admission stderr.
#[derive(Clone, Copy, Debug, PartialEq, Eq, Structural)]
pub struct IntentAdmissionStderrByteLimit(u64);

impl IntentAdmissionProcessTimeoutMillis {
    /// The quantity.
    pub closed spec fn value(self) -> u64 {
        self.0
    }

    /// Creates a positive process timeout within its current-V1 bound.
    pub fn new(value: u64) -> (r: Result<Self, ServerError>)
        ensures
            match r {
                Ok(q) => 0 < value <= ADMISSION_TIMEOUT_MAX_MS && q.value() == value,
                Err(e) => !(0 < value <= ADMISSION_TIMEOUT_MAX_MS) && is_configuration_error(e, "IntentAdmissionProcessTimeoutMillis is outside its positive current-V1 bound"@),
            },
    {
        if value == 0 || value > ADMISSION_TIMEOUT_MAX_MS {
            Err(ServerError::Configuration(
                "IntentAdmissionProcessTimeoutMillis is outside its positive current-V1 bound".to_owned(),
            ))
        } else {
            Ok(IntentAdmissionProcessTimeoutMillis(value))
        }
    }

    /// The timeout in milliseconds.
    pub fn get(self) -> (r: u64)
        ensures
            r == self.value(),
    {
        self.0
    }
}

impl IntentAdmissionStdoutByteLimit {
    /// The quantity.
    pub closed spec fn value(self) -> u64 {
        self.0
    }

    /// Creates a positive stdout limit within its current-V1 bound.
    pub fn new(value: u64) -> (r: Result<Self, ServerError>)
        ensures
            match r {
                Ok(q) => 0 < value <= ADMISSION_OUTPUT_MAX_BYTES && q.value() == value,
                Err(e) => !(0 < value <= ADMISSION_OUTPUT_MAX_BYTES) && is_configuration_error(e, "IntentAdmissionStdoutByteLimit is outside its positive current-V1 bound"@),
            },
    {
        if value == 0 || value > ADMISSION_OUTPUT_MAX_BYTES {
            Err(ServerError::Configuration(
                "IntentAdmissionStdoutByteLimit is outside its positive current-V1 bound".to_owned(),
            ))
        } else {
            Ok(IntentAdmissionStdoutByteLimit(value))
        }
    }

    /// The limit in bytes.
    pub fn get(self) -> (r: u64)
        ensures
            r == self.value(),
    {
        self.0
    }
}

impl IntentAdmissionStderrByteLimit {
    /// The quantity.
    pub closed spec fn value(self) -> u64 {
        self.0
    }

    /// Creates a positive stderr limit within its current-V1 bound.
    pub fn new(value: u64) -> (r: Result<Self, ServerError>)
        ensures
            match r {
                Ok(q) => 0 < value <= ADMISSION_OUTPUT_MAX_BYTES && q.value() == value,
                Err(e) => !(0 < value <= ADMISSION_OUTPUT_MAX_BYTES) && is_configuration_error(e, "IntentAdmissionStderrByteLimit is outside its positive current-V1 bound"@),
            },
    {
        if value == 0 || value > ADMISSION_OUTPUT_MAX_BYTES {
            Err(ServerError::Configuration(
                "IntentAdmissionStderrByteLimit is outside its positive current-V1 bound".to_owned(),
            ))
        } else {
            Ok(IntentAdmissionStderrByteLimit(value))
        }
    }

    /// The limit in bytes.
    pub fn get(self) -> (r: u64)
        ensures
            r == self.value(),
    {
        self.0
    }
}

/// Exact process and restricted-store policy for independent Intent Admission.
#[derive(Debug, PartialEq, Eq)]
pub struct IntentAdmissionProcessConfigV1 {
    pub executable: String,
    pub restricted_content_database: String,
    pub restricted_content_directory: String,
    pub process_timeout_ms: IntentAdmissionProcessTimeoutMillis,
    pub stdout_byte_limit: IntentAdmissionStdoutByteLimit,
    pub stderr_byte_limit: IntentAdmissionStderrByteLimit,
}

/// Why an Intent Admission configuration is refused, in the order the checks run.
pub open spec fn admission_config_fault(
    config: IntentAdmissionProcessConfigV1,
    public_database: Seq<char>,
    public_directory: Seq<char>,
    executable_is_file: bool,
) -> Option<Seq<char>> {
    if !absolute_path(config.executable@) || !absolute_path(config.restricted_content_database@)
        || !absolute_path(config.restricted_content_directory@) || !absolute_path(public_database)
        || !absolute_path(public_directory) {
        Some("Intent Admission executable and public/restricted stores must use absolute paths"@)
    } else if !executable_is_file {
        Some("Intent Admission executable must name an existing regular file"@)
    } else if path_eq(config.restricted_content_database@, public_database)
        || path_eq(config.restricted_content_directory@, public_directory)
        || path_eq(config.restricted_content_database@, config.restricted_content_directory@) {
        Some("Intent Admission public and restricted stores must remain distinct"@)
    } else {
        None
    }
}

/// Why an Intent Admission configuration is refused, including the derivation of its executable
/// and restricted-store identities, which runs after the path checks.
pub open spec fn admission_refusal(
    config: IntentAdmissionProcessConfigV1,
    public_database: Seq<char>,
    public_directory: Seq<char>,
    executable_is_file: bool,
    identities: Result<(), ServerError>,
) -> Option<ConfigRefusal> {
    match admission_config_fault(config, public_database, public_directory, executable_is_file) {
        Some(m) => Some(ConfigRefusal::Message(m)),
        None => if identities is Err {
            Some(ConfigRefusal::Relayed(identities->Err_0))
        } else {
            None
        },
    }
}

impl IntentAdmissionProcessConfigV1 {
    /// Checks the configuration against the public store: all paths absolute, the executable a
    /// regular file, the restricted store distinct from the public one, and then the derivation of
    /// the executable and restricted-store identities the caller attempted.
    pub fn validate(
        &self,
        public_database: &String,
        public_directory: &String,
        executable_is_file: bool,
        identities: &Result<(), ServerError>,
    ) -> (r: Result<(), ServerError>)
        ensures
            match admission_refusal(*self, public_database@, public_directory@, executable_is_file, *identities) {
                None => r is Ok,
                Some(refusal) => r is Err && refused_with(r->Err_0, refusal),
            },
    {
        if !path_is_absolute(self.executable.as_str()) || !path_is_absolute(self.restricted_content_database.as_str())
            || !path_is_absolute(self.restricted_content_directory.as_str()) || !path_is_absolute(public_database.as_str())
            || !path_is_absolute(public_directory.as_str()) {
            return Err(ServerError::Configuration(
                "Intent Admission executable and public/restricted stores must use absolute paths".to_owned(),
            ));
        }
        if !executable_is_file {
            return Err(ServerError::Configuration(
                "Intent Admission executable must name an existing regular file".to_owned(),
            ));
        }
        if same_path(self.restricted_content_database.as_str(), public_database.as_str())
            || same_path(self.restricted_content_directory.as_str(), public_directory.as_str())
            || same_path(self.restricted_content_database.as_str(), self.restricted_content_directory.as_str()) {
            return Err(ServerError::Configuration(
                "Intent Admission public and restricted stores must remain distinct".to_owned(),
            ));
        }
        match identities {
            Err(e) => Err(e.duplicate()),
            Ok(()) => Ok(()),
        }
    }

    /// Resolves the configured paths against the configuration file's directory.
    pub fn resolve_paths(&mut self, base: &str)
        ensures
            final(self).executable@ == resolved(old(self).executable@, base@),
            final(self).restricted_content_database@ == resolved(old(self).restricted_content_database@, base@),
            final(self).restricted_content_directory@ == resolved(old(self).restricted_content_directory@, base@),
            final(self).process_timeout_ms == old(self).process_timeout_ms,
            final(self).stdout_byte_limit == old(self).stdout_byte_limit,
            final(self).stderr_byte_limit == old(self).stderr_byte_limit,
    {
        resolve(&mut self.executable, base);
        resolve(&mut self.restricted_content_database, base);
        resolve(&mut self.restricted_content_directory, base);
    }
}

/// Independent Admission failure categories that require explicit reconciliation.
#[derive(Clone, Copy, Debug, PartialEq, Eq, Structural)]
pub enum IntentAdmissionProcessBlockedV1 {
    InvocationDrift,
    TimedOut,
    ExitFailure,
    StdoutLimitExceeded,
    StderrLimitExceeded,
    InvalidOutcome,
}

/// Resolving an Admission configuration against an absolute base leaves every path absolute,
/// and resolving it again changes nothing.
pub proof fn lemma_admission_paths_resolve_once(config: IntentAdmissionProcessConfigV1, base: Seq<char>)
    requires
        absolute_path(base),
    ensures
        absolute_path(resolved(config.executable@, base)),
        absolute_path(resolved(config.restricted_content_database@, base)),
        absolute_path(resolved(config.restricted_content_directory@, base)),
        resolved(resolved(config.executable@, base), base) == resolved(config.executable@, base),
        resolved(resolved(config.restricted_content_database@, base), base) == resolved(
            config.restricted_content_database@,
            base,
        ),
        resolved(resolved(config.restricted_content_directory@, base), base) == resolved(
            config.restricted_content_directory@,
            base,
        ),
{
    lemma_resolution_is_absolute_and_stable(config.executable@, base);
    lemma_resolution_is_absolute_and_stable(config.restricted_content_database@, base);
    lemma_resolution_is_absolute_and_stable(config.restricted_content_directory@, base);
}

/// A blocked Admission run.
#[derive(Clone, Copy, Debug, PartialEq, Eq, Structural)]
pub struct IntentAdmissionProcessFailure {
    pub reason: IntentAdmissionProcessBlockedV1,
}

/// A blocked run whose cause carried a diagnostic; only the category is retained.
pub fn failure(reason: IntentAdmissionProcessBlockedV1, _diagnostic: String) -> (r: IntentAdmissionProcessFailure)
    ensures
        r.reason == reason,
{
    IntentAdmissionProcessFailure { reason }
}

/// A blocked run described by a fixed diagnostic; only the category is retained.
pub fn failure_message(reason: IntentAdmissionProcessBlockedV1, _diagnostic: &str) -> (r: IntentAdmissionProcessFailure)
    ensures
        r.reason == reason,
{
    IntentAdmissionProcessFailure { reason }
}

/// A failure of the Admission supervisor's own durable work.
pub fn supervisor_error(message: String) -> (r: ServerError)
    ensures
        r == ServerError::MigrationWorkflow(message),
{
    ServerError::MigrationWorkflow(message)
}

/// What the caller observed of one authorized Admission child process.
#[derive(Clone, Copy, Debug, PartialEq, Eq, Structural)]
pub enum AdmissionRunV1 {
    /// The configuration or the executable or restricted-store identity changed since authority.
    Drifted,
    /// Spawning, piping, waiting or draining failed.
    ProcessFailed,
    /// The process exceeded its wall-clock limit and was killed.
    TimedOut,
    /// The process exited; its output sizes, status, and whether stdout is one canonical public
    /// outcome.
    Exited { success: bool, stdout_len: u64, stderr_len: u64, canonical_outcome: bool },
}

/// The classification of one Admission run under its byte limits.
pub open spec fn admission_run_result(run: AdmissionRunV1, stdout_limit: u64, stderr_limit: u64) -> Result<
    (),
    IntentAdmissionProcessBlockedV1,
> {
    match run {
        AdmissionRunV1::Drifted => Err(IntentAdmissionProcessBlockedV1::InvocationDrift),
        AdmissionRunV1::ProcessFailed => Err(IntentAdmissionProcessBlockedV1::ExitFailure),
        AdmissionRunV1::TimedOut => Err(IntentAdmissionProcessBlockedV1::TimedOut),
        AdmissionRunV1::Exited { success, stdout_len, stderr_len, canonical_outcome } => if stdout_len > stdout_limit {
            Err(IntentAdmissionProcessBlockedV1::StdoutLimitExceeded)
        } else if stderr_len > stderr_limit {
            Err(IntentAdmissionProcessBlockedV1::StderrLimitExceeded)
        } else if !success {
            Err(IntentAdmissionProcessBlockedV1::ExitFailure)
        } else if !canonical_outcome {
            Err(IntentAdmissionProcessBlockedV1::InvalidOutcome)
        } else {
            Ok(())
        },
    }
}

/// Classifies one authorized Admission run: only a successful exit within both byte limits
/// with exactly one canonical public outcome is accepted.
pub fn classify_admission_run(run: AdmissionRunV1, config: &IntentAdmissionProcessConfigV1) -> (r: Result<
    (),
    IntentAdmissionProcessFailure,
>)
    ensures
        match admission_run_result(run, config.stdout_byte_limit.value(), config.stderr_byte_limit.value()) {
            Ok(()) => r is Ok,
            Err(reason) => r == Err::<(), IntentAdmissionProcessFailure>(IntentAdmissionProcessFailure { reason }),
        },
{
    let stdout_limit = config.stdout_byte_limit.get();
    let stderr_limit = config.stderr_byte_limit.get();
    match run {
        AdmissionRunV1::Drifted => Err(failure_message(
            IntentAdmissionProcessBlockedV1::InvocationDrift,
            "Intent Admission executable or restricted store changed after durable authority",
        )),
        AdmissionRunV1::ProcessFailed => Err(IntentAdmissionProcessFailure { reason: IntentAdmissionProcessBlockedV1::ExitFailure }),
        AdmissionRunV1::TimedOut => Err(failure_message(
            IntentAdmissionProcessBlockedV1::TimedOut,
            "Intent Admission process exceeded its exact wall-clock limit",
        )),
        AdmissionRunV1::Exited { success, stdout_len, stderr_len, canonical_outcome } => {
            if stdout_len > stdout_limit {
                return Err(failure_message(
                    IntentAdmissionProcessBlockedV1::StdoutLimitExceeded,
                    "Intent Admission stdout exceeded its configured byte limit",
                ));
            }
            if stderr_len > stderr_limit {
                return Err(failure_message(
                    IntentAdmissionProcessBlockedV1::StderrLimitExceeded,
                    "Intent Admission stderr exceeded its configured byte limit",
                ));
            }
            if !success {
                return Err(IntentAdmissionProcessFailure { reason: IntentAdmissionProcessBlockedV1::ExitFailure });
            }
            if !canonical_outcome {
                return Err(failure_message(
                    IntentAdmissionProcessBlockedV1::InvalidOutcome,
                    "Intent Admission returned a noncanonical public outcome",
                ));
            }
            Ok(())
        },
    }
}

/// Checks an authorized Admission run before it starts: the configured executable and
/// restricted store must still have the identities the durable authority recorded.
pub fn check_authorized_operation(
    executable: u64,
    authorized_executable: u64,
    restricted_store: u64,
    authorized_store: u64,
) -> (r: Result<(), IntentAdmissionProcessFailure>)
    ensures
        (executable == authorized_executable && restricted_store == authorized_store) ==> r is Ok,
        !(executable == authorized_executable && restricted_store == authorized_store) ==> r == Err::<
            (),
            IntentAdmissionProcessFailure,
        >(IntentAdmissionProcessFailure { reason: IntentAdmissionProcessBlockedV1::InvocationDrift }),
{
    if executable != authorized_executable || restricted_store != authorized_store {
        return Err(failure_message(
            IntentAdmissionProcessBlockedV1::InvocationDrift,
            "Intent Admission executable or restricted store changed after durable authority",
        ));
    }
    Ok(())
}

/// Only a clean run is accepted: a run classifies as accepted exactly when it exited
/// successfully within both byte limits with one canonical outcome. A failed exit within both
/// limits is always an exit failure, and a run that overran a limit is refused for that limit
/// whatever its exit status.
pub proof fn lemma_only_clean_admission_runs_are_accepted(run: AdmissionRunV1, stdout_limit: u64, stderr_limit: u64)
    ensures
        admission_run_result(run, stdout_limit, stderr_limit) is Ok <==> (run matches AdmissionRunV1::Exited {
            success, stdout_len, stderr_len, canonical_outcome,
        } && success && canonical_outcome && stdout_len <= stdout_limit && stderr_len <= stderr_limit),
        run matches AdmissionRunV1::Exited { success, stdout_len, stderr_len, .. } && !success
            && stdout_len <= stdout_limit && stderr_len <= stderr_limit
            ==> admission_run_result(run, stdout_limit, stderr_limit)
                == Err::<(), IntentAdmissionProcessBlockedV1>(IntentAdmissionProcessBlockedV1::ExitFailure),
        run matches AdmissionRunV1::Exited { stdout_len, .. } && stdout_len > stdout_limit
            ==> admission_run_result(run, stdout_limit, stderr_limit)
                == Err::<(), IntentAdmissionProcessBlockedV1>(IntentAdmissionProcessBlockedV1::StdoutLimitExceeded),
        run matches AdmissionRunV1::Exited { stdout_len, stderr_len, .. } && stdout_len <= stdout_limit
            && stderr_len > stderr_limit ==> admission_run_result(run, stdout_limit, stderr_limit)
                == Err::<(), IntentAdmissionProcessBlockedV1>(IntentAdmissionProcessBlockedV1::StderrLimitExceeded),
        run matches AdmissionRunV1::Exited { success, stdout_len, stderr_len, canonical_outcome } && success
            && !canonical_outcome && stdout_len <= stdout_limit && stderr_len <= stderr_limit
            ==> admission_run_result(run, stdout_limit, stderr_limit)
                == Err::<(), IntentAdmissionProcessBlockedV1>(IntentAdmissionProcessBlockedV1::InvalidOutcome),
        run is Drifted ==> admission_run_result(run, stdout_limit, stderr_limit)
            == Err::<(), IntentAdmissionProcessBlockedV1>(IntentAdmissionProcessBlockedV1::InvocationDrift),
        run is TimedOut ==> admission_run_result(run, stdout_limit, stderr_limit)
            == Err::<(), IntentAdmissionProcessBlockedV1>(IntentAdmissionProcessBlockedV1::TimedOut),
        run is ProcessFailed ==> admission_run_result(run, stdout_limit, stderr_limit)
            == Err::<(), IntentAdmissionProcessBlockedV1>(IntentAdmissionProcessBlockedV1::ExitFailure),
{
}

} // verus!
