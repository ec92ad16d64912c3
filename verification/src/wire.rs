//! Big-endian integers as they stand in packet headers.

use byteorder::{BigEndian, ByteOrder};
use vstd::prelude::*;

verus! {

/// The 16-bit number whose big-endian encoding is `hi`, `lo`.
pub open spec fn be16(hi: u8, lo: u8) -> u16 {
    (hi as int * 0x100 + lo as int) as u16
}

/// The 32-bit number whose big-endian encoding is `b0`, `b1`, `b2`, `b3`.
pub open spec fn be32(b0: u8, b1: u8, b2: u8, b3: u8) -> u32 {
    (b0 as int * 0x100_0000 + b1 as int * 0x1_0000 + b2 as int * 0x100 + b3 as int) as u32
}

/// The big-endian 16-bit number at offset `at` of `s`.
pub open spec fn be16_at(s: Seq<u8>, at: int) -> u16
    recommends
        0 <= at,
        at + 2 <= s.len(),
{
    be16(s[at], s[at + 1])
}

/// The big-endian 32-bit number at offset `at` of `s`.
pub open spec fn be32_at(s: Seq<u8>, at: int) -> u32
    recommends
        0 <= at,
        at + 4 <= s.len(),
{
    be32(s[at], s[at + 1], s[at + 2], s[at + 3])
}

/// The big-endian 64-bit number at offset `at` of `s`.
pub open spec fn be64_at(s: Seq<u8>, at: int) -> u64
    recommends
        0 <= at,
        at + 8 <= s.len(),
{
    (be32_at(s, at) as int * 0x1_0000_0000 + be32_at(s, at + 4) as int) as u64
}

/// The big-endian 128-bit number at offset `at` of `s`.
pub open spec fn be128_at(s: Seq<u8>, at: int) -> u128
    recommends
        0 <= at,
        at + 16 <= s.len(),
{
    (be64_at(s, at) as int * 0x1_0000_0000_0000_0000 + be64_at(s, at + 8) as int) as u128
}

/// The four bytes of the big-endian encoding of `x`.
pub open spec fn be32_bytes(x: u32) -> Seq<u8> {
    seq![
        (x as int / 0x100_0000) as u8,
        (x as int / 0x1_0000 % 0x100) as u8,
        (x as int / 0x100 % 0x100) as u8,
        (x as int % 0x100) as u8,
    ]
}

/// The two bytes of the big-endian encoding of `x`.
pub open spec fn be16_bytes(x: u16) -> Seq<u8> {
    seq![(x as int / 0x100) as u8, (x as int % 0x100) as u8]
}

/// `byteorder::BigEndian::read_u16`, which panics on fewer than two bytes and
/// otherwise decodes the first two as a big-endian number. Trusted: the
/// result is taken to be `be16` of those two bytes.
#[verifier::external_body]
pub(crate) fn read_u16(buf: &[u8]) -> (r: u16)
    requires
        buf@.len() >= 2,
    ensures
        r == be16(buf@[0], buf@[1]),
{
    BigEndian::read_u16(buf)
}

/// `byteorder::BigEndian::read_u32`, which panics on fewer than four bytes and
/// otherwise decodes the first four as a big-endian number. Trusted: the
/// result is taken to be `be32` of those four bytes.
#[verifier::external_body]
pub(crate) fn read_u32(buf: &[u8]) -> (r: u32)
    requires
        buf@.len() >= 4,
    ensures
        r == be32(buf@[0], buf@[1], buf@[2], buf@[3]),
{
    BigEndian::read_u32(buf)
}

/// `byteorder::BigEndian::write_u16`, which panics on fewer than two bytes
/// and otherwise writes the big-endian encoding of a number over the first
/// two. Trusted: those two bytes are taken to become `be16_bytes` of the
/// number, and the others to stay as they are.
#[verifier::external_body]
pub(crate) fn write_u16(buf: &mut [u8], n: u16)
    requires
        old(buf)@.len() >= 2,
    ensures
        final(buf)@ == be16_bytes(n) + old(buf)@.subrange(2, old(buf)@.len() as int),
{
    BigEndian::write_u16(buf, n)
}

/// Reads the big-endian 16-bit number at offset `at` of `buf`.
pub fn u16_at(buf: &[u8], at: usize) -> (r: u16)
    requires
        at + 2 <= buf.len(),
    ensures
        r == be16_at(buf@, at as int),
{
    read_u16(&buf[at..at + 2])
}

/// Reads the big-endian 32-bit number at offset `at` of `buf`.
pub fn u32_at(buf: &[u8], at: usize) -> (r: u32)
    requires
        at + 4 <= buf.len(),
    ensures
        r == be32_at(buf@, at as int),
{
    read_u32(&buf[at..at + 4])
}

/// Reads the big-endian 128-bit number at offset `at` of `buf`.
pub fn u128_at(buf: &[u8], at: usize) -> (r: u128)
    requires
        at + 16 <= buf.len(),
    ensures
        r == be128_at(buf@, at as int),
{
    let a = u32_at(buf, at) as u64;
    let b = u32_at(buf, at + 4) as u64;
    let c = u32_at(buf, at + 8) as u64;
    let d = u32_at(buf, at + 12) as u64;
    let hi = a * 0x1_0000_0000 + b;
    let lo = c * 0x1_0000_0000 + d;
    hi as u128 * 0x1_0000_0000_0000_0000 + lo as u128
}

/// The big-endian encoding of `x`.
pub fn u32_bytes(x: u32) -> (r: [u8; 4])
    ensures
        r@ == be32_bytes(x),
{
    let r = [(x / 0x100_0000) as u8, (x / 0x1_0000 % 0x100) as u8, (x / 0x100 % 0x100) as u8, (x
        % 0x100) as u8];
    assert(r@ =~= be32_bytes(x));
    r
}

/// The big-endian encoding of the number that four bytes encode is those
/// four bytes.
pub proof fn lemma_be32_round_trip(s: Seq<u8>, at: int)
    requires
        0 <= at,
        at + 4 <= s.len(),
    ensures
        be32_bytes(be32_at(s, at)) == s.subrange(at, at + 4),
{
    assert(be32_bytes(be32_at(s, at)) =~= s.subrange(at, at + 4));
}

} // verus!
