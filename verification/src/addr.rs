//! Socket address value types: `SocketAddr`, `SocketAddrV4` and
//! `SocketAddrV6`, as plain values (an IP address, a port, and for IPv6 the
//! flow information and scope ID).

use vstd::prelude::*;

use crate::ip::{IpAddr, Ipv4Addr, Ipv6Addr};

verus! {

/// An IPv4 socket address: an IPv4 address and a 16-bit port number.
#[derive(Clone, Copy, Debug, PartialEq, Eq, Hash)]
pub struct SocketAddrV4 {
    /// The address.
    pub ip: Ipv4Addr,
    /// The port number.
    pub port: u16,
}

impl SocketAddrV4 {
    /// Creates a new socket address from an IPv4 address and a port number.
    pub fn new(ip: Ipv4Addr, port: u16) -> (r: SocketAddrV4)
        ensures
            r.ip == ip,
            r.port == port,
    {
        SocketAddrV4 { ip, port }
    }

    /// Returns the IP address associated with this socket address.
    pub fn ip(&self) -> (r: &Ipv4Addr)
        ensures
            *r == self.ip,
    {
        &self.ip
    }

    /// Changes the IP address associated with this socket address.
    pub fn set_ip(&mut self, new_ip: Ipv4Addr)
        ensures
            final(self).ip == new_ip,
            final(self).port == old(self).port,
    {
        self.ip = new_ip;
    }

    /// Returns the port number associated with this socket address.
    pub fn port(&self) -> (r: u16)
        ensures
            r == self.port,
    {
        self.port
    }

    /// Changes the port number associated with this socket address.
    pub fn set_port(&mut self, new_port: u16)
        ensures
            final(self).ip == old(self).ip,
            final(self).port == new_port,
    {
        self.port = new_port;
    }
}

/// An IPv6 socket address: an IPv6 address, a 16-bit port number, the flow
/// information and the scope ID.
#[derive(Clone, Copy, Debug, PartialEq, Eq, Hash)]
pub struct SocketAddrV6 {
    /// The address.
    pub ip: Ipv6Addr,
    /// The port number.
    pub port: u16,
    /// The flow information: flow label and traffic class.
    pub flowinfo: u32,
    /// The scope ID.
    pub scope_id: u32,
}

impl SocketAddrV6 {
    /// Creates a new socket address from an IPv6 address, a 16-bit port
    /// number, and the flow-information and scope-ID fields.
    pub fn new(ip: Ipv6Addr, port: u16, flowinfo: u32, scope_id: u32) -> (r: SocketAddrV6)
        ensures
            r.ip == ip,
            r.port == port,
            r.flowinfo == flowinfo,
            r.scope_id == scope_id,
    {
        SocketAddrV6 { ip, port, flowinfo, scope_id }
    }

    /// Returns the IP address associated with this socket address.
    pub fn ip(&self) -> (r: &Ipv6Addr)
        ensures
            *r == self.ip,
    {
        &self.ip
    }

    /// Changes the IP address associated with this socket address.
    pub fn set_ip(&mut self, new_ip: Ipv6Addr)
        ensures
            final(self).ip == new_ip,
            final(self).port == old(self).port,
            final(self).flowinfo == old(self).flowinfo,
            final(self).scope_id == old(self).scope_id,
    {
        self.ip = new_ip;
    }

    /// Returns the port number associated with this socket address.
    pub fn port(&self) -> (r: u16)
        ensures
            r == self.port,
    {
        self.port
    }

    /// Changes the port number associated with this socket address.
    pub fn set_port(&mut self, new_port: u16)
        ensures
            final(self).ip == old(self).ip,
            final(self).port == new_port,
            final(self).flowinfo == old(self).flowinfo,
            final(self).scope_id == old(self).scope_id,
    {
        self.port = new_port;
    }

    /// Returns the flow information associated with this address.
    pub fn flowinfo(&self) -> (r: u32)
        ensures
            r == self.flowinfo,
    {
        self.flowinfo
    }

    /// Changes the flow information associated with this socket address.
    pub fn set_flowinfo(&mut self, new_flowinfo: u32)
        ensures
            final(self).ip == old(self).ip,
            final(self).port == old(self).port,
            final(self).flowinfo == new_flowinfo,
            final(self).scope_id == old(self).scope_id,
    {
        self.flowinfo = new_flowinfo;
    }

    /// Returns the scope ID associated with this address.
    pub fn scope_id(&self) -> (r: u32)
        ensures
            r == self.scope_id,
    {
        self.scope_id
    }

    /// Changes the scope ID associated with this socket address.
    pub fn set_scope_id(&mut self, new_scope_id: u32)
        ensures
            final(self).ip == old(self).ip,
            final(self).port == old(self).port,
            final(self).flowinfo == old(self).flowinfo,
            final(self).scope_id == new_scope_id,
    {
        self.scope_id = new_scope_id;
    }
}

/// An internet socket address, either IPv4 or IPv6.
#[derive(Clone, Copy, Debug, PartialEq, Eq, Hash)]
pub enum SocketAddr {
    /// An IPv4 socket address.
    V4(SocketAddrV4),
    /// An IPv6 socket address.
    V6(SocketAddrV6),
}

impl SocketAddr {
    /// The IP address associated with this socket address.
    pub open spec fn spec_ip(&self) -> IpAddr {
        match *self {
            SocketAddr::V4(a) => IpAddr::V4(a.ip),
            SocketAddr::V6(a) => IpAddr::V6(a.ip),
        }
    }

    /// The port number associated with this socket address.
    pub open spec fn spec_port(&self) -> u16 {
        match *self {
            SocketAddr::V4(a) => a.port,
            SocketAddr::V6(a) => a.port,
        }
    }

    /// Creates a new socket address from an IP address and a port number.
    /// An IPv6 address gets zero flow information and scope ID.
    pub fn new(ip: IpAddr, port: u16) -> (r: SocketAddr)
        ensures
            r == (match ip {
                IpAddr::V4(a) => SocketAddr::V4(SocketAddrV4 { ip: a, port: port }),
                IpAddr::V6(a) => SocketAddr::V6(
                    SocketAddrV6 { ip: a, port: port, flowinfo: 0, scope_id: 0 },
                ),
            }),
    {
        match ip {
            IpAddr::V4(a) => SocketAddr::V4(SocketAddrV4::new(a, port)),
            IpAddr::V6(a) => SocketAddr::V6(SocketAddrV6::new(a, port, 0, 0)),
        }
    }

    /// Returns the IP address associated with this socket address.
    pub fn ip(&self) -> (r: IpAddr)
        ensures
            r == self.spec_ip(),
    {
        match *self {
            SocketAddr::V4(a) => IpAddr::V4(*a.ip()),
            SocketAddr::V6(a) => IpAddr::V6(*a.ip()),
        }
    }

    /// Changes the IP address associated with this socket address. When the
    /// new address's family matches the current one, the other fields are
    /// kept; otherwise the address is rebuilt with the current port, and for
    /// IPv6 with zero flow information and scope ID.
    pub fn set_ip(&mut self, new_ip: IpAddr)
        ensures
            final(self).spec_ip() == new_ip,
            final(self).spec_port() == old(self).spec_port(),
            (match (*old(self), new_ip) {
                (SocketAddr::V6(a), IpAddr::V6(_)) => *final(self) matches SocketAddr::V6(b)
                    && b.flowinfo == a.flowinfo && b.scope_id == a.scope_id,
                (SocketAddr::V4(_), IpAddr::V6(_)) => *final(self) matches SocketAddr::V6(b)
                    && b.flowinfo == 0 && b.scope_id == 0,
                _ => *final(self) is V4,
            }),
    {
        match (*self, new_ip) {
            (SocketAddr::V4(a), IpAddr::V4(ip)) => {
                *self = SocketAddr::V4(SocketAddrV4 { ip, port: a.port });
            },
            (SocketAddr::V6(a), IpAddr::V6(ip)) => {
                *self = SocketAddr::V6(
                    SocketAddrV6 { ip, port: a.port, flowinfo: a.flowinfo, scope_id: a.scope_id },
                );
            },
            (s, ip) => {
                *self = SocketAddr::new(ip, s.port());
            },
        }
    }

    /// Returns the port number associated with this socket address.
    pub fn port(&self) -> (r: u16)
        ensures
            r == self.spec_port(),
    {
        match *self {
            SocketAddr::V4(a) => a.port(),
            SocketAddr::V6(a) => a.port(),
        }
    }

    /// Changes the port number associated with this socket address; all
    /// other fields are kept.
    pub fn set_port(&mut self, new_port: u16)
        ensures
            final(self).spec_port() == new_port,
            final(self).spec_ip() == old(self).spec_ip(),
            (match *old(self) {
                SocketAddr::V4(_) => *final(self) is V4,
                SocketAddr::V6(a) => *final(self) matches SocketAddr::V6(b) && b.flowinfo
                    == a.flowinfo && b.scope_id == a.scope_id,
            }),
    {
        match *self {
            SocketAddr::V4(a) => {
                *self = SocketAddr::V4(SocketAddrV4 { ip: a.ip, port: new_port });
            },
            SocketAddr::V6(a) => {
                *self = SocketAddr::V6(
                    SocketAddrV6 {
                        ip: a.ip,
                        port: new_port,
                        flowinfo: a.flowinfo,
                        scope_id: a.scope_id,
                    },
                );
            },
        }
    }

    /// Returns `true` if the IP address in this `SocketAddr` is an IPv4
    /// address, and `false` otherwise.
    pub fn is_ipv4(&self) -> (r: bool)
        ensures
            r == (*self is V4),
    {
        matches!(*self, SocketAddr::V4(_))
    }

    /// Returns `true` if the IP address in this `SocketAddr` is an IPv6
    /// address, and `false` otherwise.
    pub fn is_ipv6(&self) -> (r: bool)
        ensures
            r == (*self is V6),
    {
        matches!(*self, SocketAddr::V6(_))
    }
}

} // verus!
