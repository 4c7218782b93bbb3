use vstd::prelude::*;

use vstd::string::StrSliceExecFns;

use crate::application::{is_whitespace_char, is_whitespace_spec};
use crate::paths::{absolute_path, path_is_absolute, resolve};
use crate::server::error::{ServerError, is_configuration_error};
use crate::paths::resolved;
use crate::supervisor::intent_admission::{IntentAdmissionProcessConfigV1, admission_refusal};

verus! {

/// Server certificate, key, and the client CA of the worker-control listener.
#[derive(Debug, PartialEq, Eq)]
pub struct ServerTlsFiles {
    pub certificate: String,
    pub private_key: String,
    pub client_ca: String,
}

/// Server certificate and key for the server-authenticated bootstrap listener.
#[derive(Debug, PartialEq, Eq)]
pub struct EnrollmentServerTlsFiles {
    pub certificate: String,
    pub private_key: String,
}

/// Externally routable worker-control endpoint and its independently pinned server authority.
#[derive(Debug, PartialEq, Eq)]
pub struct PublicWorkerControlEndpointConfig {
    pub tcp_address: String,
    pub websocket_uri: String,
    pub server_name: String,
    pub server_ca: String,
}

/// Controller durable storage locations.
#[derive(Debug, PartialEq, Eq)]
pub struct ServerStorageConfig {
    pub event_database: String,
    pub content_database: String,
    pub content_directory: String,
}

/// Isolated server-authenticated listener and certificate authority used only for bootstrap.
#[derive(Debug, PartialEq, Eq)]
pub struct EnrollmentServiceConfig {
    pub listen: String,
    pub public_tcp_address: String,
    pub websocket_uri: String,
    pub server_name: String,
    pub server_ca: String,
    pub server_tls: EnrollmentServerTlsFiles,
    pub control_endpoint: PublicWorkerControlEndpointConfig,
    pub issuer_certificate: String,
    pub issuer_private_key: String,
    pub credential_validity_ms: u64,
    pub rotation_overlap_ms: Option<u64>,
    pub handshake_timeout_ms: Option<u64>,
    pub diagnostic_byte_limit: Option<u64>,
}

/// Local product API composition.
#[derive(Debug, PartialEq, Eq)]
pub struct AppApiConfigV1 {
    pub unix_socket: String,
    pub proposal_step_resolved_runtime_model: String,
    pub intent_admission: IntentAdmissionProcessConfigV1,
    pub oracle_documentation: String,
    pub oracle_build_and_tests: String,
}

/// Strict controller process configuration.
#[derive(Debug, PartialEq, Eq)]
pub struct ServerConfig {
    pub schema_version: u16,
    pub listen: String,
    pub tls: ServerTlsFiles,
    pub enrollment_service: Option<EnrollmentServiceConfig>,
    pub storage: ServerStorageConfig,
    pub app_api: Option<AppApiConfigV1>,
    pub protocol_version: u32,
    /// Whether a configured scheduler uses the one supported placement policy; `None` when the
    /// scheduler is disabled.
    pub scheduler_policy_supported: Option<bool>,
    pub handshake_timeout_ms: Option<u64>,
    pub idle_timeout_ms: Option<u64>,
    pub outbox_poll_interval_ms: Option<u64>,
    pub authority_poll_interval_ms: u64,
    pub resource_clock_skew_tolerance_ms: Option<u64>,
    pub diagnostic_byte_limit: Option<u64>,
}

/// What the caller established about the configuration on disk and through the domain crates,
/// in the order the checks need it.
#[derive(Debug, PartialEq, Eq)]
pub struct ServerConfigFactsV1 {
    /// The proposal-step resolved runtime model check, with its diagnostic.
    pub proposal_step_model: Result<(), String>,
    pub intent_admission_executable_is_file: bool,
    /// Deriving the Intent Admission executable and restricted-store identities.
    pub intent_admission_identities: Result<(), ServerError>,
    /// The scheduler's assignment chunk size check against the transport, with its diagnostic.
    pub scheduler_chunk_size: Result<(), String>,
    /// Whether the credential issuer is the client CA the control listener trusts, or why the
    /// certificates could not be read.
    pub issuer_is_trusted_client_ca: Result<bool, String>,
}

/// Whether a context text is non-empty and has nothing that trimming would remove.
pub open spec fn nonempty_trimmed(text: Seq<char>) -> bool {
    text.len() > 0 && !is_whitespace_spec(text[0]) && !is_whitespace_spec(text[text.len() - 1])
}

fn is_nonempty_trimmed(text: &String) -> (r: bool)
    ensures
        r == nonempty_trimmed(text@),
{
    let text = text.as_str();
    let n = text.unicode_len();
    if n == 0 {
        return false;
    }
    !is_whitespace_char(text.get_char(0)) && !is_whitespace_char(text.get_char(n - 1))
}

/// How a configuration check refuses: with a fixed diagnostic, or with the error a check of the
/// caller produced.
pub enum ConfigRefusal {
    Message(Seq<char>),
    Relayed(ServerError),
}

/// Whether an error is the refusal the specification names.
pub open spec fn refused_with(error: ServerError, refusal: ConfigRefusal) -> bool {
    match refusal {
        ConfigRefusal::Message(m) => is_configuration_error(error, m),
        ConfigRefusal::Relayed(e) => error == e,
    }
}

/// The diagnostic-carrying configuration error the caller reported.
pub open spec fn relayed_configuration(diagnostic: String) -> ConfigRefusal {
    ConfigRefusal::Relayed(ServerError::Configuration(diagnostic))
}

/// The first refusal of the App API composition, if any.
pub open spec fn app_api_fault(app_api: AppApiConfigV1, storage: ServerStorageConfig, facts: ServerConfigFactsV1) -> Option<
    ConfigRefusal,
> {
    if !absolute_path(app_api.unix_socket@) {
        Some(ConfigRefusal::Message("App API unix_socket must be absolute"@))
    } else if facts.proposal_step_model is Err {
        Some(relayed_configuration(facts.proposal_step_model->Err_0))
    } else if admission_refusal(
        app_api.intent_admission,
        storage.content_database@,
        storage.content_directory@,
        facts.intent_admission_executable_is_file,
        facts.intent_admission_identities,
    ) is Some {
        admission_refusal(
            app_api.intent_admission,
            storage.content_database@,
            storage.content_directory@,
            facts.intent_admission_executable_is_file,
            facts.intent_admission_identities,
        )
    } else if !nonempty_trimmed(app_api.oracle_documentation@) || !nonempty_trimmed(app_api.oracle_build_and_tests@) {
        Some(ConfigRefusal::Message("Oracle documentation and build/test context must be non-empty and trimmed"@))
    } else {
        None
    }
}

/// The first refusal of the enrollment service, if any.
pub open spec fn enrollment_service_fault(service: EnrollmentServiceConfig, listen: String, facts: ServerConfigFactsV1) -> Option<
    ConfigRefusal,
> {
    if service.listen@ == listen@ || service.public_tcp_address@.len() == 0 || service.websocket_uri@.len() == 0
        || service.server_name@.len() == 0 {
        Some(ConfigRefusal::Message("enrollment service must use a distinct listener and non-empty public endpoint"@))
    } else if service.control_endpoint.tcp_address@.len() == 0 || service.control_endpoint.websocket_uri@.len() == 0
        || service.control_endpoint.server_name@.len() == 0 {
        Some(ConfigRefusal::Message("enrollment control_endpoint must have a non-empty public endpoint"@))
    } else {
        match facts.issuer_is_trusted_client_ca {
            Err(d) => Some(relayed_configuration(d)),
            Ok(false) => Some(ConfigRefusal::Message("credential issuer must be the client CA trusted by the control listener"@)),
            Ok(true) => None,
        }
    }
}

/// Why a controller configuration is refused, in the order the checks run.
pub open spec fn server_config_fault(config: ServerConfig, facts: ServerConfigFactsV1) -> Option<ConfigRefusal> {
    if config.schema_version != 1 {
        Some(ConfigRefusal::Message("only server schema_version 1 is supported"@))
    } else if config.app_api is Some && app_api_fault(config.app_api->0, config.storage, facts) is Some {
        app_api_fault(config.app_api->0, config.storage, facts)
    } else if config.scheduler_policy_supported == Some(false) {
        Some(ConfigRefusal::Message("only scheduler policy stable-worker-id-quantitative-v1 is supported"@))
    } else if config.scheduler_policy_supported is Some && facts.scheduler_chunk_size is Err {
        Some(relayed_configuration(facts.scheduler_chunk_size->Err_0))
    } else if config.enrollment_service is Some {
        enrollment_service_fault(config.enrollment_service->0, config.listen, facts)
    } else {
        None
    }
}

fn check_app_api(app_api: &AppApiConfigV1, storage: &ServerStorageConfig, facts: &ServerConfigFactsV1) -> (r: Result<
    (),
    ServerError,
>)
    ensures
        match app_api_fault(*app_api, *storage, *facts) {
            None => r is Ok,
            Some(refusal) => r is Err && refused_with(r->Err_0, refusal),
        },
{
    if !path_is_absolute(app_api.unix_socket.as_str()) {
        return Err(ServerError::Configuration("App API unix_socket must be absolute".to_owned()));
    }
    match &facts.proposal_step_model {
        Err(d) => return Err(ServerError::Configuration(d.clone())),
        Ok(()) => {},
    }
    match app_api.intent_admission.validate(
        &storage.content_database,
        &storage.content_directory,
        facts.intent_admission_executable_is_file,
        &facts.intent_admission_identities,
    ) {
        Err(e) => return Err(e),
        Ok(()) => {},
    }
    if !is_nonempty_trimmed(&app_api.oracle_documentation) || !is_nonempty_trimmed(&app_api.oracle_build_and_tests) {
        return Err(ServerError::Configuration(
            "Oracle documentation and build/test context must be non-empty and trimmed".to_owned(),
        ));
    }
    Ok(())
}

fn check_enrollment_service(service: &EnrollmentServiceConfig, listen: &String, facts: &ServerConfigFactsV1) -> (r: Result<
    (),
    ServerError,
>)
    ensures
        match enrollment_service_fault(*service, *listen, *facts) {
            None => r is Ok,
            Some(refusal) => r is Err && refused_with(r->Err_0, refusal),
        },
{
    if service.listen == *listen || service.public_tcp_address.as_str().is_empty() || service.websocket_uri.as_str().is_empty()
        || service.server_name.as_str().is_empty() {
        return Err(ServerError::Configuration(
            "enrollment service must use a distinct listener and non-empty public endpoint".to_owned(),
        ));
    }
    if service.control_endpoint.tcp_address.as_str().is_empty() || service.control_endpoint.websocket_uri.as_str().is_empty()
        || service.control_endpoint.server_name.as_str().is_empty() {
        return Err(ServerError::Configuration("enrollment control_endpoint must have a non-empty public endpoint".to_owned()));
    }
    match &facts.issuer_is_trusted_client_ca {
        Err(d) => Err(ServerError::Configuration(d.clone())),
        Ok(false) => Err(ServerError::Configuration(
            "credential issuer must be the client CA trusted by the control listener".to_owned(),
        )),
        Ok(true) => Ok(()),
    }
}

impl ServerConfig {
    /// Only the current-V1 server schema is accepted.
    pub fn validate_schema(&self) -> (r: Result<(), ServerError>)
        ensures
            self.schema_version == 1 ==> r is Ok,
            self.schema_version != 1 ==> r is Err && is_configuration_error(r->Err_0, "only server schema_version 1 is supported"@),
    {
        if self.schema_version != 1 {
            return Err(ServerError::Configuration("only server schema_version 1 is supported".to_owned()));
        }
        Ok(())
    }

    /// Validates the configuration: the schema, the App API composition, the scheduler policy,
    /// and the enrollment service, in that order.
    pub fn validate(&self, facts: &ServerConfigFactsV1) -> (r: Result<(), ServerError>)
        ensures
            match server_config_fault(*self, *facts) {
                None => r is Ok,
                Some(refusal) => r is Err && refused_with(r->Err_0, refusal),
            },
    {
        match self.validate_schema() {
            Err(e) => return Err(e),
            Ok(()) => {},
        }
        match &self.app_api {
            Some(app_api) => {
                match check_app_api(app_api, &self.storage, facts) {
                    Err(e) => return Err(e),
                    Ok(()) => {},
                }
            },
            None => {},
        }
        match self.scheduler_policy_supported {
            Some(false) => {
                return Err(ServerError::Configuration(
                    "only scheduler policy stable-worker-id-quantitative-v1 is supported".to_owned(),
                ));
            },
            Some(true) => {
                match &facts.scheduler_chunk_size {
                    Err(d) => return Err(ServerError::Configuration(d.clone())),
                    Ok(()) => {},
                }
            },
            None => {},
        }
        match &self.enrollment_service {
            Some(service) => check_enrollment_service(service, &self.listen, facts),
            None => Ok(()),
        }
    }

    /// The enrollment service that new offers are created for: the configuration must validate
    /// and must configure an enrollment service.
    pub fn offer_service(&self, facts: &ServerConfigFactsV1) -> (r: Result<&EnrollmentServiceConfig, ServerError>)
        ensures
            match server_config_fault(*self, *facts) {
                Some(refusal) => r is Err && refused_with(r->Err_0, refusal),
                None => match self.enrollment_service {
                    Some(service) => (r matches Ok(v) && *v == service),
                    None => r is Err && is_configuration_error(r->Err_0, "enrollment_service is not configured"@),
                },
            },
    {
        match self.validate(facts) {
            Err(e) => Err(e),
            Ok(()) => match &self.enrollment_service {
                Some(service) => Ok(service),
                None => Err(ServerError::Configuration("enrollment_service is not configured".to_owned())),
            },
        }
    }

    /// Resolves every configured path against the configuration file's directory.
    pub fn resolve_paths(&mut self, base: &str)
        ensures
            final(self).tls.certificate@ == resolved(old(self).tls.certificate@, base@),
            final(self).tls.private_key@ == resolved(old(self).tls.private_key@, base@),
            final(self).tls.client_ca@ == resolved(old(self).tls.client_ca@, base@),
            final(self).storage.event_database@ == resolved(old(self).storage.event_database@, base@),
            final(self).storage.content_database@ == resolved(old(self).storage.content_database@, base@),
            final(self).storage.content_directory@ == resolved(old(self).storage.content_directory@, base@),
            final(self).app_api is Some == old(self).app_api is Some,
            final(self).app_api is Some ==> {
                let a = final(self).app_api->0;
                let o = old(self).app_api->0;
                &&& a.unix_socket@ == resolved(o.unix_socket@, base@)
                &&& a.proposal_step_resolved_runtime_model@ == resolved(o.proposal_step_resolved_runtime_model@, base@)
                &&& a.intent_admission.executable@ == resolved(o.intent_admission.executable@, base@)
                &&& a.intent_admission.restricted_content_database@ == resolved(o.intent_admission.restricted_content_database@, base@)
                &&& a.intent_admission.restricted_content_directory@ == resolved(o.intent_admission.restricted_content_directory@, base@)
            },
            final(self).enrollment_service is Some == old(self).enrollment_service is Some,
            final(self).enrollment_service is Some ==> {
                let e = final(self).enrollment_service->0;
                let o = old(self).enrollment_service->0;
                &&& e.server_ca@ == resolved(o.server_ca@, base@)
                &&& e.server_tls.certificate@ == resolved(o.server_tls.certificate@, base@)
                &&& e.server_tls.private_key@ == resolved(o.server_tls.private_key@, base@)
                &&& e.control_endpoint.server_ca@ == resolved(o.control_endpoint.server_ca@, base@)
                &&& e.issuer_certificate@ == resolved(o.issuer_certificate@, base@)
                &&& e.issuer_private_key@ == resolved(o.issuer_private_key@, base@)
            },
            final(self).schema_version == old(self).schema_version,
            final(self).listen == old(self).listen,
    {
        resolve(&mut self.tls.certificate, base);
        resolve(&mut self.tls.private_key, base);
        resolve(&mut self.tls.client_ca, base);
        match &mut self.app_api {
            Some(app_api) => {
                resolve(&mut app_api.unix_socket, base);
                resolve(&mut app_api.proposal_step_resolved_runtime_model, base);
                app_api.intent_admission.resolve_paths(base);
            },
            None => {},
        }
        match &mut self.enrollment_service {
            Some(service) => {
                resolve(&mut service.server_ca, base);
                resolve(&mut service.server_tls.certificate, base);
                resolve(&mut service.server_tls.private_key, base);
                resolve(&mut service.control_endpoint.server_ca, base);
                resolve(&mut service.issuer_certificate, base);
                resolve(&mut service.issuer_private_key, base);
            },
            None => {},
        }
        resolve(&mut self.storage.event_database, base);
        resolve(&mut self.storage.content_database, base);
        resolve(&mut self.storage.content_directory, base);
    }
}

} // verus!
