//! The values that the conversions and the result types work on: address
//! families, IP and socket addresses, and the native address structures in
//! network byte order.

use vstd::prelude::*;

verus! {

/// An address family.
#[derive(Clone, Copy, Debug, PartialEq, Eq, Structural, Hash)]
pub enum AddressFamily {
    /// IPv4.
    INET,
    /// IPv6.
    INET6,
}

impl AddressFamily {
    /// The number of bytes that one address of this family takes.
    pub open spec fn spec_address_len(self) -> usize {
        match self {
            AddressFamily::INET => 4,
            AddressFamily::INET6 => 16,
        }
    }

    /// The number of bytes that one address of this family takes: 4 for
    /// IPv4, 16 for IPv6.
    #[verifier::when_used_as_spec(spec_address_len)]
    pub fn address_len(self) -> (len: usize)
        ensures
            len == self.spec_address_len(),
    {
        match self {
            AddressFamily::INET => 4,
            AddressFamily::INET6 => 16,
        }
    }
}

/// An IPv4 address: four octets, the first one leading.
#[derive(Clone, Copy, Debug, PartialEq, Eq, Hash)]
pub struct Ipv4Addr {
    pub octets: [u8; 4],
}

impl Ipv4Addr {
    /// The address `a.b.c.d`.
    pub fn new(a: u8, b: u8, c: u8, d: u8) -> (ip: Ipv4Addr)
        ensures
            ip.octets@ == seq![a, b, c, d],
    {
        Ipv4Addr { octets: [a, b, c, d] }
    }

    /// The four octets, the first one leading.
    pub fn octets(&self) -> (octets: [u8; 4])
        ensures
            octets == self.octets,
    {
        self.octets
    }
}

/// An IPv6 address: eight 16-bit groups, the first one leading.
#[derive(Clone, Copy, Debug, PartialEq, Eq, Hash)]
pub struct Ipv6Addr {
    pub segments: [u16; 8],
}

impl Ipv6Addr {
    /// The address `a:b:c:d:e:f:g:h`.
    pub fn new(a: u16, b: u16, c: u16, d: u16, e: u16, f: u16, g: u16, h: u16) -> (ip: Ipv6Addr)
        ensures
            ip.segments@ == seq![a, b, c, d, e, f, g, h],
    {
        Ipv6Addr { segments: [a, b, c, d, e, f, g, h] }
    }

    /// The eight groups, the first one leading.
    pub fn segments(&self) -> (segments: [u16; 8])
        ensures
            segments == self.segments,
    {
        self.segments
    }
}

/// An IP address of either family.
#[derive(Clone, Copy, Debug, PartialEq, Eq, Hash)]
pub enum IpAddr {
    V4(Ipv4Addr),
    V6(Ipv6Addr),
}

/// An IPv4 address with a port.
#[derive(Clone, Copy, Debug, PartialEq, Eq, Hash)]
pub struct SocketAddrV4 {
    pub ip: Ipv4Addr,
    pub port: u16,
}

impl SocketAddrV4 {
    /// The socket address of `ip` and `port`.
    pub fn new(ip: Ipv4Addr, port: u16) -> (sock: SocketAddrV4)
        ensures
            sock.ip == ip,
            sock.port == port,
    {
        SocketAddrV4 { ip, port }
    }

    /// The IP address.
    pub fn ip(&self) -> (ip: &Ipv4Addr)
        ensures
            *ip == self.ip,
    {
        &self.ip
    }

    /// The port, in the byte order of the machine.
    pub fn port(&self) -> (port: u16)
        ensures
            port == self.port,
    {
        self.port
    }
}

/// An IPv6 address with a port, flow information and a scope.
#[derive(Clone, Copy, Debug, PartialEq, Eq, Hash)]
pub struct SocketAddrV6 {
    pub ip: Ipv6Addr,
    pub port: u16,
    pub flowinfo: u32,
    pub scope_id: u32,
}

impl SocketAddrV6 {
    /// The socket address of `ip`, `port`, `flowinfo` and `scope_id`.
    pub fn new(ip: Ipv6Addr, port: u16, flowinfo: u32, scope_id: u32) -> (sock: SocketAddrV6)
        ensures
            sock.ip == ip,
            sock.port == port,
            sock.flowinfo == flowinfo,
            sock.scope_id == scope_id,
    {
        SocketAddrV6 { ip, port, flowinfo, scope_id }
    }

    /// The IP address.
    pub fn ip(&self) -> (ip: &Ipv6Addr)
        ensures
            *ip == self.ip,
    {
        &self.ip
    }

    /// The port, in the byte order of the machine.
    pub fn port(&self) -> (port: u16)
        ensures
            port == self.port,
    {
        self.port
    }

    /// The flow information, in the byte order of the machine.
    pub fn flowinfo(&self) -> (flowinfo: u32)
        ensures
            flowinfo == self.flowinfo,
    {
        self.flowinfo
    }

    /// The scope, in the byte order of the machine.
    pub fn scope_id(&self) -> (scope_id: u32)
        ensures
            scope_id == self.scope_id,
    {
        self.scope_id
    }
}

/// The native IPv4 address structure: one 32-bit number in network byte
/// order.
#[derive(Clone, Copy, Debug, PartialEq, Eq, Hash)]
pub struct InAddr {
    pub s_addr: u32,
}

/// The native IPv6 address structure: sixteen bytes, the most significant
/// byte of the first group leading.
#[derive(Clone, Copy, Debug, PartialEq, Eq, Hash)]
pub struct In6Addr {
    pub s6_addr: [u8; 16],
}

/// The native IPv4 socket address structure.  Port and address are in
/// network byte order; the family is the platform's number for IPv4.
#[derive(Clone, Copy, Debug, PartialEq, Eq, Hash)]
pub struct SockaddrIn {
    pub sin_family: u16,
    pub sin_port: u16,
    pub sin_addr: InAddr,
}

/// The native IPv6 socket address structure.  Port, flow information, address
/// and scope are in network byte order; the family is the platform's number
/// for IPv6.
#[derive(Clone, Copy, Debug, PartialEq, Eq, Hash)]
pub struct SockaddrIn6 {
    pub sin6_family: u16,
    pub sin6_port: u16,
    pub sin6_flowinfo: u32,
    pub sin6_addr: In6Addr,
    pub sin6_scope_id: u32,
}

} // verus!
