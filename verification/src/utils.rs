//! Conversions between the engine's native values and this library's types.

use vstd::prelude::*;
use crate::byteorder::{
    be_bytes_u16, be_bytes_u32, be_u16, be_u32, lemma_be_u16_round_trip,
    lemma_be_u32_round_trip, lemma_network_u16, lemma_network_u32, native_bytes_u32,
    network_u16, network_u32,
};
use crate::types::{
    AddressFamily, In6Addr, InAddr, Ipv4Addr, Ipv6Addr, SockaddrIn, SockaddrIn6, SocketAddrV4,
    SocketAddrV6,
};
use crate::error::{
    is_error_code, spec_ares_error, AresError, ARES_EADDRGETNETWORKPARAMS, ARES_EBADFAMILY,
    ARES_EBADFLAGS, ARES_EBADHINTS, ARES_EBADNAME, ARES_EBADQUERY, ARES_EBADRESP, ARES_EBADSTR,
    ARES_ECANCELLED, ARES_ECONNREFUSED, ARES_EDESTRUCTION, ARES_EFILE, ARES_EFORMERR,
    ARES_ELOADIPHLPAPI, ARES_ENODATA, ARES_ENOMEM, ARES_ENONAME, ARES_ENOTFOUND, ARES_ENOTIMP,
    ARES_ENOTINITIALIZED, ARES_EOF, ARES_EREFUSED, ARES_ESERVFAIL, ARES_ETIMEOUT,
};

verus! {

/// Converts a status code of the engine into an `AresError`.
///
/// Each failure code from `ARES_ENODATA` to `ARES_ECANCELLED` gives the error
/// that carries it.  Every other number, `ARES_SUCCESS` among them, gives
/// `UNKNOWN`.
pub fn ares_error(code: i32) -> (e: AresError)
    ensures
        e == spec_ares_error(code),
        is_error_code(code) ==> e.spec_code() == Some(code),
        !is_error_code(code) <==> e == AresError::UNKNOWN,
{
    match code {
        ARES_ENODATA => AresError::ENODATA,
        ARES_EFORMERR => AresError::EFORMERR,
        ARES_ESERVFAIL => AresError::ESERVFAIL,
        ARES_ENOTFOUND => AresError::ENOTFOUND,
        ARES_ENOTIMP => AresError::ENOTIMP,
        ARES_EREFUSED => AresError::EREFUSED,
        ARES_EBADQUERY => AresError::EBADQUERY,
        ARES_EBADNAME => AresError::EBADNAME,
        ARES_EBADFAMILY => AresError::EBADFAMILY,
        ARES_EBADRESP => AresError::EBADRESP,
        ARES_ECONNREFUSED => AresError::ECONNREFUSED,
        ARES_ETIMEOUT => AresError::ETIMEOUT,
        ARES_EOF => AresError::EOF,
        ARES_EFILE => AresError::EFILE,
        ARES_ENOMEM => AresError::ENOMEM,
        ARES_EDESTRUCTION => AresError::EDESTRUCTION,
        ARES_EBADSTR => AresError::EBADSTR,
        ARES_EBADFLAGS => AresError::EBADFLAGS,
        ARES_ENONAME => AresError::ENONAME,
        ARES_EBADHINTS => AresError::EBADHINTS,
        ARES_ENOTINITIALIZED => AresError::ENOTINITIALIZED,
        ARES_ELOADIPHLPAPI => AresError::ELOADIPHLPAPI,
        ARES_EADDRGETNETWORKPARAMS => AresError::EADDRGETNETWORKPARAMS,
        ARES_ECANCELLED => AresError::ECANCELLED,
        _ => AresError::UNKNOWN,
    }
}

/// What holds of the two numbers by which a platform names the IPv4 and the
/// IPv6 address family: they differ, and each fits the family field of a
/// socket address.
pub open spec fn family_numbers(inet: i32, inet6: i32) -> bool {
    &&& inet != inet6
    &&& 0 < inet < 0x100
    &&& 0 < inet6 < 0x100
}

/// The family that a native number names, where `inet` and `inet6` are the
/// numbers of the two families.
pub open spec fn spec_address_family(family: i32, inet: i32, inet6: i32) -> Option<
    AddressFamily,
> {
    if family == inet {
        Some(AddressFamily::INET)
    } else if family == inet6 {
        Some(AddressFamily::INET6)
    } else {
        None
    }
}

/// Whether `known` is what a platform can make of the native number
/// `family`: what `spec_address_family` gives for some pair of numbers that a
/// platform can give the two families.
pub open spec fn names_family(family: i32, known: Option<AddressFamily>) -> bool {
    exists|inet: i32, inet6: i32| #[trigger]
        family_numbers(inet, inet6) && known == spec_address_family(family, inet, inet6)
}

/// The numbers of the IPv4 and of the IPv6 address family on this platform:
/// the constants `libc::AF_INET` and `libc::AF_INET6`.  Which numbers these
/// are differs from platform to platform.  On each platform that libc knows
/// the two differ and lie between 1 and 255.
#[verifier::external_body]
fn native_families() -> (families: (i32, i32))
    ensures
        family_numbers(families.0, families.1),
{
    (libc::AF_INET, libc::AF_INET6)
}

/// Converts a native family number into an `AddressFamily`, given the numbers
/// `inet` and `inet6` of the two families.  A number that is neither of them
/// names no family.
pub fn address_family_among(family: i32, inet: i32, inet6: i32) -> (known: Option<AddressFamily>)
    ensures
        known == spec_address_family(family, inet, inet6),
{
    if family == inet {
        Some(AddressFamily::INET)
    } else if family == inet6 {
        Some(AddressFamily::INET6)
    } else {
        None
    }
}

/// Converts a native family number into an `AddressFamily`, by the numbers
/// that the platform gives the two families.  A number that is neither of
/// them names no family.
pub fn address_family(family: i32) -> (known: Option<AddressFamily>)
    ensures
        names_family(family, known),
        !(0 < family < 0x100) ==> known is None,
{
    let (inet, inet6) = native_families();
    address_family_among(family, inet, inet6)
}

/// The number that names `family`, where `inet` and `inet6` are the numbers
/// of the two families.
pub open spec fn spec_native_family(family: AddressFamily, inet: i32, inet6: i32) -> i32 {
    match family {
        AddressFamily::INET => inet,
        AddressFamily::INET6 => inet6,
    }
}

/// Converts an `AddressFamily` into its native number, given the numbers
/// `inet` and `inet6` of the two families.
pub fn native_family_among(family: AddressFamily, inet: i32, inet6: i32) -> (number: i32)
    ensures
        number == spec_native_family(family, inet, inet6),
{
    match family {
        AddressFamily::INET => inet,
        AddressFamily::INET6 => inet6,
    }
}

/// Converts an `AddressFamily` into the number that the platform gives it.
pub fn native_family(family: AddressFamily) -> (number: i32)
    ensures
        names_family(number, Some(family)),
        0 < number < 0x100,
{
    let (inet, inet6) = native_families();
    assert(family_numbers(inet, inet6) && Some(family) == spec_address_family(
        spec_native_family(family, inet, inet6),
        inet,
        inet6,
    ));
    native_family_among(family, inet, inet6)
}

/// Where the two families have different numbers, the number of a family
/// names that family and no other.
pub proof fn lemma_family_round_trip(family: AddressFamily, inet: i32, inet6: i32)
    requires
        inet != inet6,
    ensures
        spec_address_family(spec_native_family(family, inet, inet6), inet, inet6) == Some(family),
{
}

/// The native structure of an IPv4 address: the number whose bytes, the most
/// significant one first, are the four octets, held in network byte order.
pub open spec fn spec_ipv4_as_in_addr(ipv4: Ipv4Addr) -> InAddr {
    InAddr { s_addr: network_u32(be_u32(ipv4.octets@)) }
}

/// The octets of the IPv4 address that a native structure holds.
pub open spec fn spec_in_addr_octets(addr: InAddr) -> Seq<u8> {
    be_bytes_u32(network_u32(addr.s_addr))
}

/// The sixteen bytes of eight 16-bit groups: for each group in turn its most
/// significant byte, followed by its least significant one.
pub open spec fn segments_bytes(segments: Seq<u16>) -> Seq<u8> {
    Seq::new(2 * segments.len(), |i: int| be_bytes_u16(segments[i / 2])[i % 2])
}

/// The 16-bit groups that a string of bytes spells: each pair of bytes is one
/// group, its first byte the most significant.
pub open spec fn bytes_segments(bytes: Seq<u8>) -> Seq<u16> {
    Seq::new(bytes.len() / 2, |i: int| be_u16(bytes.subrange(2 * i, 2 * i + 2)))
}

/// Gets an `InAddr` from an `Ipv4Addr`.
///
/// The result holds the address in network byte order: in memory its four
/// bytes are the octets of the address, the first octet leading.
pub fn ipv4_as_in_addr(ipv4: &Ipv4Addr) -> (addr: InAddr)
    ensures
        addr == spec_ipv4_as_in_addr(*ipv4),
        native_bytes_u32(addr.s_addr) == ipv4.octets@,
        spec_in_addr_octets(addr) == ipv4.octets@,
{
    let octets: [u8; 4] = ipv4.octets();
    let a: u8 = octets[0];
    let b: u8 = octets[1];
    let c: u8 = octets[2];
    let d: u8 = octets[3];
    let value: u32 = ((a as u32) << 24) | ((b as u32) << 16) | ((c as u32) << 8) | (d as u32);
    proof {
        assert(((a as u32) << 24) | ((b as u32) << 16) | ((c as u32) << 8) | (d as u32) == (
        a as u32) * 0x100_0000 + (b as u32) * 0x1_0000 + (c as u32) * 0x100 + (d as u32))
            by (bit_vector);
        lemma_network_u32(value);
        lemma_be_u32_round_trip(value, octets@);
    }
    InAddr { s_addr: value.to_be() }
}

/// Gets the `Ipv4Addr` that an `InAddr` holds in network byte order.
pub fn in_addr_as_ipv4(addr: &InAddr) -> (ipv4: Ipv4Addr)
    ensures
        ipv4.octets@ == spec_in_addr_octets(*addr),
{
    let value: u32 = u32::from_be(addr.s_addr);
    let a: u8 = ((value >> 24) & 0xff) as u8;
    let b: u8 = ((value >> 16) & 0xff) as u8;
    let c: u8 = ((value >> 8) & 0xff) as u8;
    let d: u8 = (value & 0xff) as u8;
    proof {
        assert((value >> 24) & 0xff == value / 0x100_0000) by (bit_vector);
        assert((value >> 16) & 0xff == value / 0x1_0000 % 0x100) by (bit_vector);
        assert((value >> 8) & 0xff == value / 0x100 % 0x100) by (bit_vector);
        assert(value & 0xff == value % 0x100) by (bit_vector);
    }
    Ipv4Addr::new(a, b, c, d)
}

/// Gets an `In6Addr` from an `Ipv6Addr`.
///
/// The result holds the address in network byte order: each 16-bit group
/// gives two bytes, its most significant byte first.
pub fn ipv6_as_in6_addr(ipv6: &Ipv6Addr) -> (addr: In6Addr)
    ensures
        addr.s6_addr@ == segments_bytes(ipv6.segments@),
{
    let segments: [u16; 8] = ipv6.segments();
    let mut bytes: [u8; 16] = [0u8; 16];
    let mut i: usize = 0;
    while i < 8
        invariant
            i <= 8,
            forall|k: int| 0 <= k < 2 * i ==> bytes@[k] == segments_bytes(segments@)[k],
        decreases 8 - i,
    {
        let segment: u16 = segments[i];
        let high: u8 = (segment >> 8) as u8;
        let low: u8 = (segment & 0xff) as u8;
        proof {
            assert(segment >> 8 == segment / 0x100) by (bit_vector);
            assert(segment & 0xff == segment % 0x100) by (bit_vector);
        }
        bytes[2 * i] = high;
        bytes[2 * i + 1] = low;
        i += 1;
    }
    In6Addr { s6_addr: bytes }
}

/// Reads an `Ipv6Addr` from the first sixteen of `bytes`, which hold it in
/// network byte order.
pub(crate) fn ipv6_from_bytes(bytes: &[u8]) -> (ipv6: Ipv6Addr)
    requires
        bytes@.len() >= 16,
    ensures
        ipv6.segments@ == bytes_segments(bytes@.take(16)),
{
    let mut segments: [u16; 8] = [0u16; 8];
    let mut i: usize = 0;
    while i < 8
        invariant
            i <= 8,
            bytes@.len() >= 16,
            forall|k: int| 0 <= k < i ==> segments@[k] == bytes_segments(bytes@.take(16))[k],
        decreases 8 - i,
    {
        let high: u8 = bytes[2 * i];
        let low: u8 = bytes[2 * i + 1];
        proof {
            assert(((high as u16) << 8) == (high as u16) * 0x100) by (bit_vector);
        }
        segments[i] = ((high as u16) << 8) + (low as u16);
        i += 1;
    }
    Ipv6Addr { segments }
}

/// Gets the `Ipv6Addr` that an `In6Addr` holds in network byte order.
pub fn in6_addr_as_ipv6(addr: &In6Addr) -> (ipv6: Ipv6Addr)
    ensures
        ipv6.segments@ == bytes_segments(addr.s6_addr@),
{
    ipv6_from_bytes(addr.s6_addr.as_slice())
}

/// The native structure of an IPv4 socket address whose family field holds
/// `family`.
pub open spec fn spec_sockaddr_in(sock: SocketAddrV4, family: u16) -> SockaddrIn {
    SockaddrIn {
        sin_family: family,
        sin_port: network_u16(sock.port),
        sin_addr: spec_ipv4_as_in_addr(sock.ip),
    }
}

/// Gets a `SockaddrIn` from a `SocketAddrV4`, with `family` in its family
/// field.  Port and address go into network byte order.
pub fn sockaddr_in_with_family(sock: &SocketAddrV4, family: u16) -> (native: SockaddrIn)
    ensures
        native == spec_sockaddr_in(*sock, family),
{
    let in_addr = ipv4_as_in_addr(sock.ip());
    SockaddrIn { sin_family: family, sin_port: sock.port().to_be(), sin_addr: in_addr }
}

/// Gets a `SockaddrIn` from a `SocketAddrV4`.
///
/// Port and address go into network byte order.  The family field holds the
/// platform's number for IPv4.
pub fn socket_addrv4_as_sockaddr_in(sock_v4: &SocketAddrV4) -> (native: SockaddrIn)
    ensures
        native.sin_port == network_u16(sock_v4.port),
        native.sin_addr == spec_ipv4_as_in_addr(sock_v4.ip),
        0 < native.sin_family < 0x100,
        native == spec_sockaddr_in(*sock_v4, native.sin_family),
{
    let (inet, _) = native_families();
    sockaddr_in_with_family(sock_v4, inet as u16)
}

/// Gets the `SocketAddrV4` that a `SockaddrIn` holds in network byte order.
/// The family field is not looked at.
pub fn sockaddr_in_as_socket_addrv4(native: &SockaddrIn) -> (sock: SocketAddrV4)
    ensures
        sock.port == network_u16(native.sin_port),
        sock.ip.octets@ == spec_in_addr_octets(native.sin_addr),
{
    let ip = in_addr_as_ipv4(&native.sin_addr);
    SocketAddrV4::new(ip, u16::from_be(native.sin_port))
}

/// Gets a `SockaddrIn6` from a `SocketAddrV6`, with `family` in its family
/// field.  Port, flow information, address and scope go into network byte
/// order.
pub fn sockaddr_in6_with_family(sock: &SocketAddrV6, family: u16) -> (native: SockaddrIn6)
    ensures
        native.sin6_family == family,
        native.sin6_port == network_u16(sock.port),
        native.sin6_flowinfo == network_u32(sock.flowinfo),
        native.sin6_addr.s6_addr@ == segments_bytes(sock.ip.segments@),
        native.sin6_scope_id == network_u32(sock.scope_id),
{
    let in6_addr = ipv6_as_in6_addr(sock.ip());
    SockaddrIn6 {
        sin6_family: family,
        sin6_port: sock.port().to_be(),
        sin6_flowinfo: sock.flowinfo().to_be(),
        sin6_addr: in6_addr,
        sin6_scope_id: sock.scope_id().to_be(),
    }
}

/// Gets a `SockaddrIn6` from a `SocketAddrV6`.
///
/// Port, flow information, address and scope go into network byte order.
/// The family field holds the platform's number for IPv6.
pub fn socket_addrv6_as_sockaddr_in6(sock_v6: &SocketAddrV6) -> (native: SockaddrIn6)
    ensures
        0 < native.sin6_family < 0x100,
        native.sin6_port == network_u16(sock_v6.port),
        native.sin6_flowinfo == network_u32(sock_v6.flowinfo),
        native.sin6_addr.s6_addr@ == segments_bytes(sock_v6.ip.segments@),
        native.sin6_scope_id == network_u32(sock_v6.scope_id),
{
    let (_, inet6) = native_families();
    sockaddr_in6_with_family(sock_v6, inet6 as u16)
}

/// Gets the `SocketAddrV6` that a `SockaddrIn6` holds in network byte order.
/// The family field is not looked at.
pub fn sockaddr_in6_as_socket_addrv6(native: &SockaddrIn6) -> (sock: SocketAddrV6)
    ensures
        sock.port == network_u16(native.sin6_port),
        sock.flowinfo == network_u32(native.sin6_flowinfo),
        sock.ip.segments@ == bytes_segments(native.sin6_addr.s6_addr@),
        sock.scope_id == network_u32(native.sin6_scope_id),
{
    let ip = in6_addr_as_ipv6(&native.sin6_addr);
    SocketAddrV6::new(
        ip,
        u16::from_be(native.sin6_port),
        u32::from_be(native.sin6_flowinfo),
        u32::from_be(native.sin6_scope_id),
    )
}

/// Going from four octets to the native structure and back gives the four
/// octets again.
pub proof fn lemma_ipv4_round_trip(ipv4: Ipv4Addr)
    ensures
        spec_in_addr_octets(spec_ipv4_as_in_addr(ipv4)) == ipv4.octets@,
        native_bytes_u32(spec_ipv4_as_in_addr(ipv4).s_addr) == ipv4.octets@,
{
    let value = be_u32(ipv4.octets@);
    lemma_network_u32(value);
    lemma_be_u32_round_trip(value, ipv4.octets@);
}

/// Going from a native IPv4 structure to octets and back gives the native
/// structure again.
pub proof fn lemma_in_addr_round_trip(addr: InAddr, ipv4: Ipv4Addr)
    requires
        ipv4.octets@ == spec_in_addr_octets(addr),
    ensures
        spec_ipv4_as_in_addr(ipv4) == addr,
{
    let value = network_u32(addr.s_addr);
    lemma_be_u32_round_trip(value, ipv4.octets@);
    lemma_network_u32(addr.s_addr);
}

/// Going from eight groups to sixteen bytes and back gives the eight groups
/// again.
pub proof fn lemma_ipv6_round_trip(segments: Seq<u16>)
    ensures
        bytes_segments(segments_bytes(segments)) == segments,
{
    let bytes = segments_bytes(segments);
    assert forall|i: int| 0 <= i < segments.len() implies bytes_segments(bytes)[i]
        == segments[i] by {
        let pair = bytes.subrange(2 * i, 2 * i + 2);
        lemma_be_u16_round_trip(segments[i], pair);
    }
}

/// Going from an even number of bytes to groups and back gives the bytes
/// again; so it is for the sixteen bytes of an IPv6 address.
pub proof fn lemma_in6_addr_round_trip(bytes: Seq<u8>)
    requires
        bytes.len() % 2 == 0,
    ensures
        segments_bytes(bytes_segments(bytes)) == bytes,
{
    let segments = bytes_segments(bytes);
    assert forall|k: int| 0 <= k < bytes.len() implies segments_bytes(segments)[k]
        == bytes[k] by {
        let i = k / 2;
        let pair = bytes.subrange(2 * i, 2 * i + 2);
        lemma_be_u16_round_trip(0, pair);
    }
}

/// Ports, flow information and scopes come back unchanged from network byte
/// order.
pub proof fn lemma_network_order_round_trip(port: u16, word: u32)
    ensures
        network_u16(network_u16(port)) == port,
        network_u32(network_u32(word)) == word,
{
    lemma_network_u16(port);
    lemma_network_u32(word);
}

} // verus!
