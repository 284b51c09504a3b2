//! Network byte order.
//!
//! The native address structures hold their multi-byte numbers in network
//! byte order: in memory the most significant byte stands first.  What number
//! such a field holds therefore depends on the byte order of the machine,
//! which `vstd::endian::endianness` stands for.

use vstd::prelude::*;
use vstd::endian::{endianness, Endian};

verus! {

/// The two bytes of `x`, the most significant one first.
pub open spec fn be_bytes_u16(x: u16) -> Seq<u8> {
    seq![(x / 0x100) as u8, (x % 0x100) as u8]
}

/// The number whose two bytes are `bytes`, the most significant one first.
pub open spec fn be_u16(bytes: Seq<u8>) -> u16 {
    (bytes[0] * 0x100 + bytes[1]) as u16
}

/// The four bytes of `x`, the most significant one first.
pub open spec fn be_bytes_u32(x: u32) -> Seq<u8> {
    seq![
        (x / 0x100_0000) as u8,
        (x / 0x1_0000 % 0x100) as u8,
        (x / 0x100 % 0x100) as u8,
        (x % 0x100) as u8,
    ]
}

/// The number whose four bytes are `bytes`, the most significant one first.
pub open spec fn be_u32(bytes: Seq<u8>) -> u32 {
    (bytes[0] * 0x100_0000 + bytes[1] * 0x1_0000 + bytes[2] * 0x100 + bytes[3]) as u32
}

/// `x` with its two bytes in the opposite order.
pub open spec fn swapped_u16(x: u16) -> u16 {
    be_u16(be_bytes_u16(x).reverse())
}

/// `x` with its four bytes in the opposite order.
pub open spec fn swapped_u32(x: u32) -> u32 {
    be_u32(be_bytes_u32(x).reverse())
}

/// The number that holds `x` in network byte order on this machine: `x`
/// itself on a big-endian machine, `x` with its bytes swapped on a
/// little-endian one.  The same function leads back, since swapping twice
/// changes nothing.
pub open spec fn network_u16(x: u16) -> u16 {
    match endianness() {
        Endian::Big => x,
        Endian::Little => swapped_u16(x),
    }
}

/// The number that holds `x` in network byte order on this machine: `x`
/// itself on a big-endian machine, `x` with its bytes swapped on a
/// little-endian one.  The same function leads back, since swapping twice
/// changes nothing.
pub open spec fn network_u32(x: u32) -> u32 {
    match endianness() {
        Endian::Big => x,
        Endian::Little => swapped_u32(x),
    }
}

/// The bytes of `x` in the order in which this machine keeps them in memory.
pub open spec fn native_bytes_u16(x: u16) -> Seq<u8> {
    match endianness() {
        Endian::Big => be_bytes_u16(x),
        Endian::Little => be_bytes_u16(x).reverse(),
    }
}

/// The bytes of `x` in the order in which this machine keeps them in memory.
pub open spec fn native_bytes_u32(x: u32) -> Seq<u8> {
    match endianness() {
        Endian::Big => be_bytes_u32(x),
        Endian::Little => be_bytes_u32(x).reverse(),
    }
}

/// `u16::to_be` of the standard library, which vstd does not specify.  Its
/// documentation says that it converts from the target's byte order to big
/// endian: a no-op on a big-endian target, a swap of the bytes on a
/// little-endian one.
pub assume_specification[ <u16>::to_be ](x: u16) -> (r: u16)
    ensures
        r == network_u16(x),
;

/// `u16::from_be` of the standard library, which vstd does not specify.  Its
/// documentation says that it converts from big endian to the target's byte
/// order: a no-op on a big-endian target, a swap of the bytes on a
/// little-endian one.
pub assume_specification[ <u16>::from_be ](x: u16) -> (r: u16)
    ensures
        r == network_u16(x),
;

/// `u32::to_be` of the standard library, which vstd does not specify.  Its
/// documentation says that it converts from the target's byte order to big
/// endian: a no-op on a big-endian target, a swap of the bytes on a
/// little-endian one.
pub assume_specification[ <u32>::to_be ](x: u32) -> (r: u32)
    ensures
        r == network_u32(x),
;

/// `u32::from_be` of the standard library, which vstd does not specify.  Its
/// documentation says that it converts from big endian to the target's byte
/// order: a no-op on a big-endian target, a swap of the bytes on a
/// little-endian one.
pub assume_specification[ <u32>::from_be ](x: u32) -> (r: u32)
    ensures
        r == network_u32(x),
;

/// A 16-bit number is made of its high and its low byte.
proof fn lemma_split_u16(x: u16)
    by (bit_vector)
    ensures
        x / 0x100 < 0x100,
        (x / 0x100) * 0x100 + x % 0x100 == x,
{
}

/// Two bytes make a 16-bit number whose high and low byte they are.
proof fn lemma_join_u16(hi: u8, lo: u8)
    by (bit_vector)
    ensures
        (hi as u16) * 0x100 + (lo as u16) <= 0xffff,
        ((hi as u16) * 0x100 + (lo as u16)) as u16 / 0x100 == hi,
        ((hi as u16) * 0x100 + (lo as u16)) as u16 % 0x100 == lo,
{
}

/// A 32-bit number is made of its four bytes.
proof fn lemma_split_u32(x: u32)
    by (bit_vector)
    ensures
        x / 0x100_0000 < 0x100,
        (x / 0x100_0000) * 0x100_0000 + (x / 0x1_0000 % 0x100) * 0x1_0000 + (x / 0x100 % 0x100)
            * 0x100 + x % 0x100 == x,
{
}

/// Four bytes make a 32-bit number whose bytes they are.
proof fn lemma_join_u32(b0: u8, b1: u8, b2: u8, b3: u8)
    by (bit_vector)
    ensures
        ({
            let sum = (b0 as u32) * 0x100_0000 + (b1 as u32) * 0x1_0000 + (b2 as u32) * 0x100 + (
            b3 as u32);
            &&& sum <= 0xffff_ffff
            &&& (sum as u32) / 0x100_0000 == b0
            &&& (sum as u32) / 0x1_0000 % 0x100 == b1
            &&& (sum as u32) / 0x100 % 0x100 == b2
            &&& (sum as u32) % 0x100 == b3
        }),
{
}

/// Splitting a 16-bit number into its bytes and putting them together again
/// gives the number back, and the other way round.
pub proof fn lemma_be_u16_round_trip(x: u16, bytes: Seq<u8>)
    requires
        bytes.len() == 2,
    ensures
        be_u16(be_bytes_u16(x)) == x,
        be_bytes_u16(be_u16(bytes)) == bytes,
{
    lemma_split_u16(x);
    lemma_join_u16(bytes[0], bytes[1]);
}

/// Splitting a 32-bit number into its bytes and putting them together again
/// gives the number back, and the other way round.
pub proof fn lemma_be_u32_round_trip(x: u32, bytes: Seq<u8>)
    requires
        bytes.len() == 4,
    ensures
        be_u32(be_bytes_u32(x)) == x,
        be_bytes_u32(be_u32(bytes)) == bytes,
{
    lemma_split_u32(x);
    lemma_join_u32(bytes[0], bytes[1], bytes[2], bytes[3]);
}

/// A 16-bit number in network byte order lies in memory with its most
/// significant byte first, whatever the machine; and converting twice gives
/// the number back.
pub proof fn lemma_network_u16(x: u16)
    ensures
        native_bytes_u16(network_u16(x)) == be_bytes_u16(x),
        network_u16(network_u16(x)) == x,
{
    let flipped = be_bytes_u16(x).reverse();
    lemma_be_u16_round_trip(x, flipped);
}

/// A 32-bit number in network byte order lies in memory with its most
/// significant byte first, whatever the machine; and converting twice gives
/// the number back.
pub proof fn lemma_network_u32(x: u32)
    ensures
        native_bytes_u32(network_u32(x)) == be_bytes_u32(x),
        network_u32(network_u32(x)) == x,
{
    let flipped = be_bytes_u32(x).reverse();
    lemma_be_u32_round_trip(x, flipped);
}

} // verus!
