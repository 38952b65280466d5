use vstd::prelude::*;

verus! {

/// An IP address, held as the big-endian integer of its octets.
#[derive(Clone, Copy, Debug, PartialEq, Eq, Structural)]
pub enum IpAddress {
    V4(u32),
    V6(u128),
}

/// The address family of an `IpAddress`.
#[derive(Clone, Copy, Debug, PartialEq, Eq, Structural)]
pub enum Family {
    V4,
    V6,
}

/// First address of the IPv4 multicast block 224.0.0.0/4.
pub const V4_MULTICAST_FIRST: u32 = 0xE000_0000;

/// Last address of the IPv4 multicast block 224.0.0.0/4.
pub const V4_MULTICAST_LAST: u32 = 0xEFFF_FFFF;

/// First address of the IPv6 multicast block ff00::/8.
pub const V6_MULTICAST_FIRST: u128 = 0xFF00_0000_0000_0000_0000_0000_0000_0000;

/// An address is multicast when it lies in its family's reserved block:
/// 224.0.0.0/4 for IPv4, ff00::/8 for IPv6.
pub open spec fn is_multicast_spec(a: IpAddress) -> bool {
    match a {
        IpAddress::V4(x) => V4_MULTICAST_FIRST <= x <= V4_MULTICAST_LAST,
        IpAddress::V6(x) => V6_MULTICAST_FIRST <= x,
    }
}

pub open spec fn family_spec(a: IpAddress) -> Family {
    match a {
        IpAddress::V4(_) => Family::V4,
        IpAddress::V6(_) => Family::V6,
    }
}

impl IpAddress {
    /// Whether the address lies in its family's multicast block.
    pub fn is_multicast(&self) -> (r: bool)
        ensures
            r == is_multicast_spec(*self),
    {
        match *self {
            IpAddress::V4(x) => V4_MULTICAST_FIRST <= x && x <= V4_MULTICAST_LAST,
            IpAddress::V6(x) => V6_MULTICAST_FIRST <= x,
        }
    }

    /// The address family, which decides the wildcard address to bind and
    /// the group-join call to make.
    pub fn family(&self) -> (r: Family)
        ensures
            r == family_spec(*self),
    {
        match *self {
            IpAddress::V4(_) => Family::V4,
            IpAddress::V6(_) => Family::V6,
        }
    }
}

/// A multicast group and a UDP port. Well formed when the address is
/// multicast; built once from validated input and never changed.
#[derive(Clone, Copy, Debug, PartialEq, Eq, Structural)]
pub struct MulticastEndpoint {
    pub addr: IpAddress,
    pub port: u16,
}

impl MulticastEndpoint {
    pub open spec fn wf(&self) -> bool {
        is_multicast_spec(self.addr)
    }
}

} // verus!
