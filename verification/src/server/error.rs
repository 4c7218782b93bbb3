use vstd::prelude::*;

use crate::enrollment::model::EnrollmentError;

verus! {

/// Configuration, transport, or durable-domain process failure.
#[derive(Debug, PartialEq, Eq)]
pub enum ServerError {
    /// The command line does not name a supported command.
    Usage,
    Configuration(String),
    Startup(String),
    Session(String),
    Scheduling(String),
    MigrationWorkflow(String),
    RegistryEntryNotFound(String),
}

impl ServerError {
    /// An identical error.
    pub fn duplicate(&self) -> (r: Self)
        ensures
            r == *self,
    {
        match self {
            ServerError::Usage => ServerError::Usage,
            ServerError::Configuration(m) => ServerError::Configuration(m.clone()),
            ServerError::Startup(m) => ServerError::Startup(m.clone()),
            ServerError::Session(m) => ServerError::Session(m.clone()),
            ServerError::Scheduling(m) => ServerError::Scheduling(m.clone()),
            ServerError::MigrationWorkflow(m) => ServerError::MigrationWorkflow(m.clone()),
            ServerError::RegistryEntryNotFound(m) => ServerError::RegistryEntryNotFound(m.clone()),
        }
    }
}

/// Whether an error is a configuration failure with exactly this diagnostic.
pub open spec fn is_configuration_error(error: ServerError, message: Seq<char>) -> bool {
    error matches ServerError::Configuration(m) && m@ == message
}

/// A configuration failure carrying its diagnostic.
pub fn configuration_error(message: String) -> (r: ServerError)
    ensures
        r == ServerError::Configuration(message),
{
    ServerError::Configuration(message)
}

/// A migration-workflow failure carrying its diagnostic.
pub fn migration_error(message: String) -> (r: ServerError)
    ensures
        r == ServerError::MigrationWorkflow(message),
{
    ServerError::MigrationWorkflow(message)
}

/// Why the enrollment listener refused a redemption, as told to the worker.
#[derive(Clone, Copy, Debug, PartialEq, Eq, Structural)]
pub enum EnrollmentRejectCode {
    InvalidAuthority,
    Expired,
    AlreadyUsed,
    InvalidRequest,
    ControllerUnavailable,
}

/// The reject code a worker sees for a refused redemption.
pub open spec fn rejection_code(error: EnrollmentError) -> EnrollmentRejectCode {
    match error {
        EnrollmentError::InvalidAuthority | EnrollmentError::Revoked => EnrollmentRejectCode::InvalidAuthority,
        EnrollmentError::Expired => EnrollmentRejectCode::Expired,
        EnrollmentError::AlreadyUsed => EnrollmentRejectCode::AlreadyUsed,
        EnrollmentError::InvalidRequest(_) => EnrollmentRejectCode::InvalidRequest,
        _ => EnrollmentRejectCode::ControllerUnavailable,
    }
}

/// The worker-facing reject code and fixed diagnostic of a refused redemption. Internal
/// failures are never described beyond "controller unavailable".
pub fn enrollment_rejection(error: &EnrollmentError) -> (r: (EnrollmentRejectCode, &'static str))
    ensures
        r.0 == rejection_code(*error),
        r.1@ == (match *error {
            EnrollmentError::InvalidAuthority => "enrollment authority is invalid"@,
            EnrollmentError::Expired => "enrollment authority has expired"@,
            EnrollmentError::AlreadyUsed => "enrollment authority was already used"@,
            EnrollmentError::Revoked => "enrollment authority was revoked"@,
            EnrollmentError::InvalidRequest(_) => "enrollment request is invalid"@,
            _ => "controller could not durably issue a credential"@,
        }),
{
    match error {
        EnrollmentError::InvalidAuthority => (EnrollmentRejectCode::InvalidAuthority, "enrollment authority is invalid"),
        EnrollmentError::Expired => (EnrollmentRejectCode::Expired, "enrollment authority has expired"),
        EnrollmentError::AlreadyUsed => (EnrollmentRejectCode::AlreadyUsed, "enrollment authority was already used"),
        EnrollmentError::Revoked => (EnrollmentRejectCode::InvalidAuthority, "enrollment authority was revoked"),
        EnrollmentError::InvalidRequest(_) => (EnrollmentRejectCode::InvalidRequest, "enrollment request is invalid"),
        EnrollmentError::InvalidHistory(_)
        | EnrollmentError::CredentialNotActive
        | EnrollmentError::WorkerNotActive
        | EnrollmentError::WorkerNotDisabled
        | EnrollmentError::WorkerPoolUnchanged
        | EnrollmentError::EnrollmentAlreadyIssued
        | EnrollmentError::CommandConflict
        | EnrollmentError::Storage
        | EnrollmentError::Issuance => (
            EnrollmentRejectCode::ControllerUnavailable,
            "controller could not durably issue a credential",
        ),
    }
}

} // verus!
