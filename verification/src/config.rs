//! Startup configuration and address resolution.
//!
//! The process may be told an explicit public IP address (NAT or
//! port-forwarded deployments) and optionally the interface to bind; absent a
//! public address it auto-detects a local interface address and lets the OS
//! pick the port. Whatever the mode, the advertised endpoint carries the port
//! the socket was actually bound to, never a guessed one.

use vstd::prelude::*;

use crate::addr::{Endpoint, HostIp};

verus! {

/// The fixed UDP port used when an explicit public address is configured.
pub const EXPLICIT_BIND_PORT: u16 = 10000;

/// Explicit-address mode: bind to `bind_ip`, advertise `public_ip`.
#[derive(Clone, Copy, Debug, PartialEq, Eq, Structural)]
pub struct NatConfig {
    pub bind_ip: HostIp,
    pub public_ip: HostIp,
}

/// Builds the configuration from the optional environment-provided addresses.
///
/// A configuration exists exactly when a public address was given; the bind
/// address then defaults to the wildcard address.
pub fn resolve_config(public_ip: Option<HostIp>, bind_ip: Option<HostIp>) -> (r: Option<NatConfig>)
    ensures
        r is Some <==> public_ip is Some,
        public_ip matches Some(p) ==> {
            &&& r matches Some(c)
            &&& c.public_ip == p
            &&& c.bind_ip == if bind_ip is Some {
                bind_ip->0
            } else {
                HostIp::V4(0u8, 0u8, 0u8, 0u8)
            }
        },
{
    match public_ip {
        None => None,
        Some(p) => {
            let b = match bind_ip {
                Some(b) => b,
                None => HostIp::wildcard(),
            };
            Some(NatConfig { bind_ip: b, public_ip: p })
        },
    }
}

/// The endpoint the UDP socket must be bound to.
///
/// With an explicit configuration this is the configured bind interface on
/// the fixed port; otherwise it is the auto-detected local address with port
/// zero, so the OS assigns one.
pub fn bind_endpoint(config: &Option<NatConfig>, detected_ip: HostIp) -> (r: Endpoint)
    ensures
        config matches Some(c) ==> r == (Endpoint { ip: c.bind_ip, port: EXPLICIT_BIND_PORT }),
        config is None ==> r == (Endpoint { ip: detected_ip, port: 0u16 }),
{
    match config {
        Some(c) => Endpoint { ip: c.bind_ip, port: EXPLICIT_BIND_PORT },
        None => Endpoint { ip: detected_ip, port: 0 },
    }
}

/// The endpoint advertised to the remote peer, given the endpoint the socket
/// actually got.
///
/// Its port is always the actually-bound port, and its IP is the configured
/// public address when one exists, the bound (auto-detected) address
/// otherwise.
pub fn advertised_endpoint(config: &Option<NatConfig>, bound: Endpoint) -> (r: Endpoint)
    ensures
        r.port == bound.port,
        r.ip == match *config {
            Some(c) => c.public_ip,
            None => bound.ip,
        },
{
    match config {
        Some(c) => Endpoint { ip: c.public_ip, port: bound.port },
        None => bound,
    }
}

} // verus!
