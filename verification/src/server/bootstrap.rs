//! The endpoints a freshly bootstrapped deployment advertises: the documented configuration with
//! the listen and public addresses and the WebSocket URIs of the given server name filled in.

use vstd::prelude::*;

use vstd::string::{StrSliceExecFns, StringExecFns};

use crate::server::config::ServerConfig;
use crate::server::error::ServerError;

verus! {

/// Index of the last `:` among the first `end` characters of an address, or `-1`.
pub open spec fn last_colon(address: Seq<char>, end: int) -> int
    decreases end,
{
    if end <= 0 {
        -1
    } else if address[end - 1] == ':' {
        end - 1
    } else {
        last_colon(address, end - 1)
    }
}

/// The port of an address: the text after its last `:`, or nothing when it has no `:`.
pub open spec fn port_of(address: Seq<char>) -> Option<Seq<char>> {
    let i = last_colon(address, address.len() as int);
    if i < 0 {
        None
    } else {
        Some(address.subrange(i + 1, address.len() as int))
    }
}

proof fn lemma_last_colon_range(address: Seq<char>, end: int)
    requires
        0 <= end <= address.len(),
    ensures
        -1 <= last_colon(address, end) < end,
    decreases end,
{
    if end > 0 && address[end - 1] != ':' {
        lemma_last_colon_range(address, end - 1);
    }
}

/// The port of a `host:port` address.
pub fn address_port(address: &str) -> (r: Option<&str>)
    ensures
        match port_of(address@) {
            Some(p) => r is Some && r->0@ == p,
            None => r is None,
        },
{
    let n = address.unicode_len();
    let mut end: usize = n;
    while end > 0
        invariant
            end <= n,
            n == address@.len(),
            last_colon(address@, end as int) == last_colon(address@, n as int),
        decreases end,
    {
        if address.get_char(end - 1) == ':' {
            proof {
                lemma_last_colon_range(address@, n as int);
            }
            return Some(address.substring_char(end, n));
        }
        end = end - 1;
    }
    None
}

/// The WebSocket URI a server name and port advertise for one route.
pub open spec fn websocket_uri(server_name: Seq<char>, port: Seq<char>, route: Seq<char>) -> Seq<char> {
    "wss://"@ + server_name + ":"@ + port + route
}

/// The refusal for an address without a port.
pub open spec fn no_port(address: Seq<char>) -> Seq<char> {
    address + " does not name a port"@
}

fn uri(server_name: &str, port: &str, route: &str) -> (r: String)
    ensures
        r@ == websocket_uri(server_name@, port@, route@),
{
    let mut text = String::from_str("wss://");
    text.append(server_name);
    text.append(":");
    text.append(port);
    text.append(route);
    proof {
        reveal_strlit("wss://");
        reveal_strlit(":");
    }
    assert(text@ =~= websocket_uri(server_name@, port@, route@));
    text
}

fn port_refusal(address: &str) -> (r: ServerError)
    ensures
        r matches ServerError::Startup(m) && m@ == no_port(address@),
{
    let mut text = String::from_str(address);
    text.append(" does not name a port");
    ServerError::Startup(text)
}

/// Fills the documented configuration in for a deployment: the control listener and the
/// enrollment listener take the given addresses, which are also advertised, and both WebSocket
/// URIs name the server and the port of their address. The documented configuration must have
/// an enrollment service, and both addresses must name a port.
pub fn bootstrap_configuration(
    documented: ServerConfig,
    server_name: &str,
    control_address: &str,
    enrollment_address: &str,
) -> (r: Result<ServerConfig, ServerError>)
    ensures
        documented.enrollment_service is None ==> (r matches Err(ServerError::Startup(m))
            && m@ == "documented configuration has no enrollment service"@),
        documented.enrollment_service is Some && port_of(enrollment_address@) is None ==> (r matches Err(ServerError::Startup(m))
            && m@ == no_port(enrollment_address@)),
        documented.enrollment_service is Some && port_of(enrollment_address@) is Some && port_of(control_address@) is None
            ==> (r matches Err(ServerError::Startup(m)) && m@ == no_port(control_address@)),
        documented.enrollment_service is Some && port_of(enrollment_address@) is Some && port_of(control_address@) is Some
            ==> r is Ok && ({
            let c = r->Ok_0;
            let s = c.enrollment_service->0;
            let d = documented.enrollment_service->0;
            &&& c.listen@ == control_address@
            &&& c.enrollment_service is Some
            &&& s.listen@ == enrollment_address@
            &&& s.public_tcp_address@ == enrollment_address@
            &&& s.server_name@ == server_name@
            &&& s.websocket_uri@ == websocket_uri(server_name@, port_of(enrollment_address@)->0, "/enrollment"@)
            &&& s.control_endpoint.tcp_address@ == control_address@
            &&& s.control_endpoint.server_name@ == server_name@
            &&& s.control_endpoint.websocket_uri@ == websocket_uri(server_name@, port_of(control_address@)->0, "/control"@)
            &&& s.control_endpoint.server_ca == d.control_endpoint.server_ca
            &&& s.server_ca == d.server_ca
            &&& s.server_tls == d.server_tls
            &&& s.issuer_certificate == d.issuer_certificate
            &&& s.issuer_private_key == d.issuer_private_key
            &&& s.credential_validity_ms == d.credential_validity_ms
            &&& s.rotation_overlap_ms == d.rotation_overlap_ms
            &&& s.handshake_timeout_ms == d.handshake_timeout_ms
            &&& s.diagnostic_byte_limit == d.diagnostic_byte_limit
            &&& c.schema_version == documented.schema_version
            &&& c.tls == documented.tls
            &&& c.storage == documented.storage
            &&& c.app_api == documented.app_api
            &&& c.protocol_version == documented.protocol_version
            &&& c.scheduler_policy_supported == documented.scheduler_policy_supported
            &&& c.handshake_timeout_ms == documented.handshake_timeout_ms
            &&& c.idle_timeout_ms == documented.idle_timeout_ms
            &&& c.outbox_poll_interval_ms == documented.outbox_poll_interval_ms
            &&& c.authority_poll_interval_ms == documented.authority_poll_interval_ms
            &&& c.resource_clock_skew_tolerance_ms == documented.resource_clock_skew_tolerance_ms
            &&& c.diagnostic_byte_limit == documented.diagnostic_byte_limit
        }),
{
    let mut config = documented;
    config.listen = control_address.to_owned();
    let mut service = match config.enrollment_service {
        Some(service) => service,
        None => return Err(ServerError::Startup("documented configuration has no enrollment service".to_owned())),
    };
    service.listen = enrollment_address.to_owned();
    service.public_tcp_address = enrollment_address.to_owned();
    service.server_name = server_name.to_owned();
    let enrollment_port = match address_port(enrollment_address) {
        Some(p) => p,
        None => return Err(port_refusal(enrollment_address)),
    };
    service.websocket_uri = uri(server_name, enrollment_port, "/enrollment");
    service.control_endpoint.tcp_address = control_address.to_owned();
    service.control_endpoint.server_name = server_name.to_owned();
    let control_port = match address_port(control_address) {
        Some(p) => p,
        None => return Err(port_refusal(control_address)),
    };
    service.control_endpoint.websocket_uri = uri(server_name, control_port, "/control");
    config.enrollment_service = Some(service);
    Ok(config)
}

} // verus!
