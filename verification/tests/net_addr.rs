use rsix::addr::{SocketAddr, SocketAddrV4, SocketAddrV6};
use rsix::ip::{IpAddr, Ipv4Addr, Ipv6Addr};

#[test]
fn ipv4_addr_octets() {
    let ip = Ipv4Addr::new(127, 0, 0, 1);
    assert_eq!(ip.octets(), [127, 0, 0, 1]);
}

#[test]
fn ipv6_addr_segments() {
    let ip = Ipv6Addr::new(0x2001, 0xdb8, 0, 0, 0, 0, 0, 1);
    assert_eq!(ip.segments(), [0x2001, 0xdb8, 0, 0, 0, 0, 0, 1]);
}

#[test]
fn v4_new_ip_port() {
    let socket = SocketAddrV4::new(Ipv4Addr::new(127, 0, 0, 1), 8080);
    assert_eq!(socket.ip(), &Ipv4Addr::new(127, 0, 0, 1));
    assert_eq!(socket.port(), 8080);
}

#[test]
fn v4_set_ip_set_port() {
    let mut socket = SocketAddrV4::new(Ipv4Addr::new(127, 0, 0, 1), 8080);
    socket.set_ip(Ipv4Addr::new(192, 168, 0, 1));
    assert_eq!(socket.ip(), &Ipv4Addr::new(192, 168, 0, 1));
    socket.set_port(4242);
    assert_eq!(socket.port(), 4242);
    assert_eq!(socket.ip(), &Ipv4Addr::new(192, 168, 0, 1));
}

#[test]
fn v6_new_ip_port_flowinfo_scope_id() {
    let socket = SocketAddrV6::new(Ipv6Addr::new(0, 0, 0, 0, 0, 0, 0, 1), 8080, 10, 78);
    assert_eq!(socket.ip(), &Ipv6Addr::new(0, 0, 0, 0, 0, 0, 0, 1));
    assert_eq!(socket.port(), 8080);
    assert_eq!(socket.flowinfo(), 10);
    assert_eq!(socket.scope_id(), 78);
}

#[test]
fn v6_setters() {
    let mut socket = SocketAddrV6::new(Ipv6Addr::new(0, 0, 0, 0, 0, 0, 0, 1), 8080, 10, 78);
    socket.set_ip(Ipv6Addr::new(76, 45, 0, 0, 0, 0, 0, 0));
    assert_eq!(socket.ip(), &Ipv6Addr::new(76, 45, 0, 0, 0, 0, 0, 0));
    socket.set_port(4242);
    assert_eq!(socket.port(), 4242);
    socket.set_flowinfo(56);
    assert_eq!(socket.flowinfo(), 56);
    socket.set_scope_id(42);
    assert_eq!(socket.scope_id(), 42);
    assert_eq!(socket.port(), 4242);
    assert_eq!(socket.flowinfo(), 56);
}

#[test]
fn socket_addr_new_v4() {
    let socket = SocketAddr::new(IpAddr::V4(Ipv4Addr::new(127, 0, 0, 1)), 8080);
    assert_eq!(socket.ip(), IpAddr::V4(Ipv4Addr::new(127, 0, 0, 1)));
    assert_eq!(socket.port(), 8080);
    assert!(socket.is_ipv4());
    assert!(!socket.is_ipv6());
}

#[test]
fn socket_addr_new_v6_zeroes_flow_and_scope() {
    let socket = SocketAddr::new(IpAddr::V6(Ipv6Addr::new(0, 0, 0, 0, 0, 65535, 0, 1)), 8080);
    assert!(!socket.is_ipv4());
    assert!(socket.is_ipv6());
    match socket {
        SocketAddr::V6(a) => {
            assert_eq!(a.flowinfo, 0);
            assert_eq!(a.scope_id, 0);
        }
        SocketAddr::V4(_) => panic!("expected an IPv6 socket address"),
    }
}

#[test]
fn socket_addr_set_ip_same_family() {
    let mut socket = SocketAddr::new(IpAddr::V4(Ipv4Addr::new(127, 0, 0, 1)), 8080);
    socket.set_ip(IpAddr::V4(Ipv4Addr::new(10, 10, 0, 1)));
    assert_eq!(socket.ip(), IpAddr::V4(Ipv4Addr::new(10, 10, 0, 1)));
    assert_eq!(socket.port(), 8080);
}

#[test]
fn socket_addr_set_ip_across_families() {
    let mut socket = SocketAddr::new(IpAddr::V4(Ipv4Addr::new(127, 0, 0, 1)), 9000);
    socket.set_ip(IpAddr::V6(Ipv6Addr::new(0, 0, 0, 0, 0, 0, 0, 1)));
    assert!(socket.is_ipv6());
    assert_eq!(socket.ip(), IpAddr::V6(Ipv6Addr::new(0, 0, 0, 0, 0, 0, 0, 1)));
    assert_eq!(socket.port(), 9000);
    match socket {
        SocketAddr::V6(a) => {
            assert_eq!(a.flowinfo, 0);
            assert_eq!(a.scope_id, 0);
        }
        SocketAddr::V4(_) => panic!("expected an IPv6 socket address"),
    }
}

#[test]
fn socket_addr_set_port() {
    let mut socket = SocketAddr::new(IpAddr::V4(Ipv4Addr::new(127, 0, 0, 1)), 8080);
    socket.set_port(1025);
    assert_eq!(socket.port(), 1025);
    assert_eq!(socket.ip(), IpAddr::V4(Ipv4Addr::new(127, 0, 0, 1)));
}

#[test]
fn socket_addr_v6_preserves_flow_and_scope_on_set_port() {
    let mut socket = SocketAddr::V6(SocketAddrV6::new(
        Ipv6Addr::new(0, 0, 0, 0, 0, 0, 0, 1),
        8080,
        10,
        78,
    ));
    socket.set_port(81);
    match socket {
        SocketAddr::V6(a) => {
            assert_eq!(a.port, 81);
            assert_eq!(a.flowinfo, 10);
            assert_eq!(a.scope_id, 78);
        }
        SocketAddr::V4(_) => panic!("expected an IPv6 socket address"),
    }
}
