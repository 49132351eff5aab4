//! Network addresses as plain values.
//!
//! The engine and the socket live outside this crate; everything the library
//! itself reads of an address is held here as integers: an IP address is its
//! octets or groups, an endpoint is an IP address plus a port.

use vstd::prelude::*;

verus! {

/// An IP address, version 4 (four octets) or version 6 (eight 16-bit groups).
#[derive(Clone, Copy, Debug, PartialEq, Eq, Structural)]
pub enum HostIp {
    V4(u8, u8, u8, u8),
    V6(u16, u16, u16, u16, u16, u16, u16, u16),
}

/// A socket endpoint: an IP address together with a UDP port.
#[derive(Clone, Copy, Debug, PartialEq, Eq, Structural)]
pub struct Endpoint {
    pub ip: HostIp,
    pub port: u16,
}

impl HostIp {
    /// The IPv4 wildcard address, `0.0.0.0`.
    pub fn wildcard() -> (r: HostIp)
        ensures
            r == HostIp::V4(0u8, 0u8, 0u8, 0u8),
    {
        HostIp::V4(0, 0, 0, 0)
    }
}

/// Whether the engine accepts `ip` as the address of a host candidate.
///
/// The engine rejects the IPv4 link-local, broadcast, multicast and
/// unspecified ranges, and the IPv6 multicast and unspecified ranges.
pub open spec fn acceptable_candidate_ip(ip: HostIp) -> bool {
    match ip {
        HostIp::V4(a, b, c, d) => {
            &&& !(a == 169 && b == 254)
            &&& !(a == 255 && b == 255 && c == 255 && d == 255)
            &&& !(224 <= a && a <= 239)
            &&& !(a == 0 && b == 0 && c == 0 && d == 0)
        },
        HostIp::V6(g0, g1, g2, g3, g4, g5, g6, g7) => {
            &&& !(g0 >= 0xff00)
            &&& !(g0 == 0 && g1 == 0 && g2 == 0 && g3 == 0 && g4 == 0 && g5 == 0 && g6 == 0
                && g7 == 0)
        },
    }
}

/// Executable form of [`acceptable_candidate_ip`].
pub fn is_acceptable_candidate_ip(ip: &HostIp) -> (r: bool)
    ensures
        r == acceptable_candidate_ip(*ip),
{
    match *ip {
        HostIp::V4(a, b, c, d) => {
            !(a == 169 && b == 254) && !(a == 255 && b == 255 && c == 255 && d == 255) && !(224
                <= a && a <= 239) && !(a == 0 && b == 0 && c == 0 && d == 0)
        },
        HostIp::V6(g0, g1, g2, g3, g4, g5, g6, g7) => {
            !(g0 >= 0xff00) && !(g0 == 0 && g1 == 0 && g2 == 0 && g3 == 0 && g4 == 0 && g5 == 0
                && g6 == 0 && g7 == 0)
        },
    }
}

} // verus!
