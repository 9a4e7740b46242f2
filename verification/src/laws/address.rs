//! Laws of addresses.

use vstd::prelude::*;

use crate::addr::{AddressFamily, SocketAddr};

verus! {

/// An IPv6 address takes an IPv6 socket, an IPv4 address an IPv4 socket, whatever else is in it.
pub proof fn law_family_is_that_of_the_variant(addr: SocketAddr)
    ensures
        addr.spec_family() == AddressFamily::V6 <==> addr is V6,
        addr.spec_family() == AddressFamily::V4 <==> addr is V4,
{
}

/// The wildcard address of a family belongs to that family, and is zero in everything else.
pub proof fn law_wildcard_is_zero(family: AddressFamily)
    ensures
        SocketAddr::spec_unspecified(family) is V6 <==> family == AddressFamily::V6,
        match SocketAddr::spec_unspecified(family) {
            SocketAddr::V4(v4) => v4.ip == 0 && v4.port == 0,
            SocketAddr::V6(v6) => v6.ip == 0 && v6.port == 0 && v6.flowinfo == 0 && v6.scope_id == 0,
        },
{
}

} // verus!
