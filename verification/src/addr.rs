//! Internet socket addresses.

use vstd::prelude::*;

verus! {

/// Address family of a socket.
#[derive(Clone, Copy, Debug, PartialEq, Eq, Structural)]
pub enum AddressFamily {
    /// IPv4 (`AF_INET`).
    V4,
    /// IPv6 (`AF_INET6`).
    V6,
}

/// An IPv4 socket address. The IP address is the number that its octets spell in network byte
/// order.
#[derive(Clone, Copy, Debug, PartialEq, Eq, Structural)]
pub struct SocketAddrV4 {
    pub ip: u32,
    pub port: u16,
}

/// An IPv6 socket address. The IP address is the number that its octets spell in network byte
/// order.
#[derive(Clone, Copy, Debug, PartialEq, Eq, Structural)]
pub struct SocketAddrV6 {
    pub ip: u128,
    pub port: u16,
    pub flowinfo: u32,
    pub scope_id: u32,
}

/// An internet socket address.
#[derive(Clone, Copy, Debug, PartialEq, Eq, Structural)]
pub enum SocketAddr {
    V4(SocketAddrV4),
    V6(SocketAddrV6),
}

impl SocketAddr {
    /// The family of the address.
    pub open spec fn spec_family(self) -> AddressFamily {
        match self {
            SocketAddr::V4(..) => AddressFamily::V4,
            SocketAddr::V6(..) => AddressFamily::V6,
        }
    }

    /// Family that a socket has to have to reach this address.
    pub fn family(&self) -> (family: AddressFamily)
        ensures
            family == self.spec_family(),
            family is V6 <==> *self is V6,
    {
        match self {
            SocketAddr::V4(..) => AddressFamily::V4,
            SocketAddr::V6(..) => AddressFamily::V6,
        }
    }

    /// The wildcard address of a family with the port left to the system to choose.
    pub open spec fn spec_unspecified(family: AddressFamily) -> SocketAddr {
        match family {
            AddressFamily::V4 => SocketAddr::V4(SocketAddrV4 { ip: 0, port: 0 }),
            AddressFamily::V6 => SocketAddr::V6(SocketAddrV6 { ip: 0, port: 0, flowinfo: 0, scope_id: 0 }),
        }
    }

    /// The wildcard address (`0.0.0.0:0` or `[::]:0`) of `family`.
    pub fn unspecified(family: AddressFamily) -> (addr: SocketAddr)
        ensures
            addr == SocketAddr::spec_unspecified(family),
            addr is V6 <==> family is V6,
    {
        match family {
            AddressFamily::V4 => SocketAddr::V4(SocketAddrV4 { ip: 0, port: 0 }),
            AddressFamily::V6 => SocketAddr::V6(SocketAddrV6 { ip: 0, port: 0, flowinfo: 0, scope_id: 0 }),
        }
    }
}

} // verus!
