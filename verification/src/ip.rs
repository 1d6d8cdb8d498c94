//! IP address value types: plain octet/segment holders used by the socket
//! address types.

use vstd::prelude::*;

verus! {

/// An IPv4 address: four octets.
#[derive(Clone, Copy, Debug, PartialEq, Eq, Hash)]
pub struct Ipv4Addr {
    octets: [u8; 4],
}

impl Ipv4Addr {
    /// The address's four octets, in the order written in dotted notation.
    pub closed spec fn spec_octets(&self) -> Seq<u8> {
        self.octets@
    }

    /// Creates an IPv4 address from four octets.
    pub fn new(a: u8, b: u8, c: u8, d: u8) -> (r: Ipv4Addr)
        ensures
            r.spec_octets() == seq![a, b, c, d],
    {
        let r = Ipv4Addr { octets: [a, b, c, d] };
        proof {
            assert(r.octets@ =~= seq![a, b, c, d]);
        }
        r
    }

    /// The four octets of the address.
    pub fn octets(&self) -> (r: [u8; 4])
        ensures
            r@ == self.spec_octets(),
    {
        self.octets
    }
}

/// An IPv6 address: eight 16-bit segments.
#[derive(Clone, Copy, Debug, PartialEq, Eq, Hash)]
pub struct Ipv6Addr {
    segments: [u16; 8],
}

impl Ipv6Addr {
    /// The address's eight segments, in the order written in colon notation.
    pub closed spec fn spec_segments(&self) -> Seq<u16> {
        self.segments@
    }

    /// Creates an IPv6 address from eight 16-bit segments.
    pub fn new(a: u16, b: u16, c: u16, d: u16, e: u16, f: u16, g: u16, h: u16) -> (r: Ipv6Addr)
        ensures
            r.spec_segments() == seq![a, b, c, d, e, f, g, h],
    {
        let r = Ipv6Addr { segments: [a, b, c, d, e, f, g, h] };
        proof {
            assert(r.segments@ =~= seq![a, b, c, d, e, f, g, h]);
        }
        r
    }

    /// The eight segments of the address.
    pub fn segments(&self) -> (r: [u16; 8])
        ensures
            r@ == self.spec_segments(),
    {
        self.segments
    }
}

/// An IP address, either IPv4 or IPv6.
#[derive(Clone, Copy, Debug, PartialEq, Eq, Hash)]
pub enum IpAddr {
    /// An IPv4 address.
    V4(Ipv4Addr),
    /// An IPv6 address.
    V6(Ipv6Addr),
}

} // verus!
