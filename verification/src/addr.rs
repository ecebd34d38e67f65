//! Plain-value socket addresses.
//!
//! The transport contracts speak about addresses as data: an IP address and a
//! port.  Host-name resolution is the platform's business and stays with the
//! concrete transport.

use vstd::prelude::*;

verus! {

/// An IP address as plain values: four octets for version 4, eight groups for
/// version 6.
#[derive(Clone, Copy, PartialEq, Eq, Structural, Debug)]
pub enum IpAddr {
    V4(u8, u8, u8, u8),
    V6(u16, u16, u16, u16, u16, u16, u16, u16),
}

/// A socket address: an IP address together with a port.
#[derive(Clone, Copy, PartialEq, Eq, Structural, Debug)]
pub struct SocketAddr {
    pub ip: IpAddr,
    pub port: u16,
}

impl SocketAddr {
    /// Builds the address `ip:port`.
    pub fn new(ip: IpAddr, port: u16) -> (r: SocketAddr)
        ensures
            r.ip == ip,
            r.port == port,
    {
        SocketAddr { ip, port }
    }
}

/// The loopback address of version 4: `127.0.0.1`.
pub open spec fn spec_loopback() -> IpAddr {
    IpAddr::V4(127, 0, 0, 1)
}

/// Returns the loopback address `127.0.0.1`.
pub fn loopback() -> (r: IpAddr)
    ensures
        r == spec_loopback(),
{
    IpAddr::V4(127, 0, 0, 1)
}

} // verus!
