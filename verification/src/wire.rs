//! Fixed-width integers on the wire: four bytes, least significant first.

use vstd::prelude::*;

verus! {

/// The four bytes of `x`, least significant first.
pub open spec fn u32_bytes(x: u32) -> Seq<u8> {
    seq![
        (x as int % 256) as u8,
        (x as int / 256 % 256) as u8,
        (x as int / 65536 % 256) as u8,
        (x as int / 16777216) as u8,
    ]
}

/// The unsigned integer whose bytes, least significant first, are the first
/// four of `b`.
pub open spec fn u32_of_bytes(b: Seq<u8>) -> u32
    recommends
        b.len() >= 4,
{
    (b[0] as int + 256 * (b[1] as int) + 65536 * (b[2] as int) + 16777216 * (b[3] as int)) as u32
}

/// The bit pattern of `x` in two's complement, read as an unsigned integer.
pub open spec fn unsigned_of(x: i32) -> u32 {
    if x >= 0 {
        x as u32
    } else {
        (x as int + 0x1_0000_0000) as u32
    }
}

/// The signed integer whose two's complement bit pattern is `u`.
pub open spec fn signed_of(u: u32) -> i32 {
    if u < 0x8000_0000 {
        u as i32
    } else {
        (u as int - 0x1_0000_0000) as i32
    }
}

/// The four bytes of `x` in two's complement, least significant first.
pub open spec fn i32_bytes(x: i32) -> Seq<u8> {
    u32_bytes(unsigned_of(x))
}

/// The signed integer whose two's complement bytes, least significant first,
/// are the first four of `b`.
pub open spec fn i32_of_bytes(b: Seq<u8>) -> i32
    recommends
        b.len() >= 4,
{
    signed_of(u32_of_bytes(b))
}

/// A byte below a multiple of 256 is the remainder, and the multiplier the
/// quotient.
proof fn lemma_low_byte(low: int, high: int)
    requires
        0 <= low < 256,
    ensures
        (low + 256 * high) % 256 == low,
        (low + 256 * high) / 256 == high,
{
}

/// Decoding the bytes of an unsigned integer gives the integer back.
pub proof fn lemma_u32_round_trip(x: u32)
    ensures
        u32_bytes(x).len() == 4,
        u32_of_bytes(u32_bytes(x)) == x,
{
}

/// Encoding the integer read from four bytes gives the four bytes back.
pub proof fn lemma_u32_bytes_of_bytes(b: Seq<u8>)
    requires
        b.len() == 4,
    ensures
        u32_bytes(u32_of_bytes(b)) == b,
{
    let b0 = b[0] as int;
    let b1 = b[1] as int;
    let b2 = b[2] as int;
    let b3 = b[3] as int;
    let x = u32_of_bytes(b) as int;
    lemma_low_byte(b0, b1 + 256 * b2 + 65536 * b3);
    lemma_low_byte(b1, b2 + 256 * b3);
    lemma_low_byte(b2, b3);
    assert(x / 256 == b1 + 256 * b2 + 65536 * b3);
    assert(x / 65536 == x / 256 / 256);
    assert(x / 16777216 == x / 65536 / 256);
    assert(u32_bytes(u32_of_bytes(b)) =~= b);
}

/// The two readings of a 32-bit pattern are inverse to each other.
pub proof fn lemma_sign_round_trip(x: i32, u: u32)
    ensures
        signed_of(unsigned_of(x)) == x,
        unsigned_of(signed_of(u)) == u,
{
}

/// Decoding the bytes of a signed integer gives the integer back.
pub proof fn lemma_i32_round_trip(x: i32)
    ensures
        i32_bytes(x).len() == 4,
        i32_of_bytes(i32_bytes(x)) == x,
{
    lemma_u32_round_trip(unsigned_of(x));
    lemma_sign_round_trip(x, 0);
}

/// Appends the four bytes of `x` to `out`.
pub fn push_u32(out: &mut Vec<u8>, x: u32)
    ensures
        final(out)@ == old(out)@ + u32_bytes(x),
{
    out.push((x % 256) as u8);
    out.push((x / 256 % 256) as u8);
    out.push((x / 65536 % 256) as u8);
    out.push((x / 16777216) as u8);
    assert(out@ =~= old(out)@ + u32_bytes(x));
}

/// Appends the four bytes of `x` to `out`.
pub fn push_i32(out: &mut Vec<u8>, x: i32)
    ensures
        final(out)@ == old(out)@ + i32_bytes(x),
{
    let pattern: u32 = if x >= 0 {
        x as u32
    } else {
        (x as i64 + 0x1_0000_0000) as u32
    };
    push_u32(out, pattern);
}

/// Reads the unsigned integer that starts at offset `at` of `buf`.
pub fn read_u32(buf: &[u8], at: usize) -> (x: u32)
    requires
        at + 4 <= buf@.len(),
    ensures
        x == u32_of_bytes(buf@.subrange(at as int, at + 4)),
{
    let b0: u32 = buf[at] as u32;
    let b1: u32 = buf[at + 1] as u32;
    let b2: u32 = buf[at + 2] as u32;
    let b3: u32 = buf[at + 3] as u32;
    b0 + 256 * b1 + 65536 * b2 + 16777216 * b3
}

/// Reads the signed integer that starts at offset `at` of `buf`.
pub fn read_i32(buf: &[u8], at: usize) -> (x: i32)
    requires
        at + 4 <= buf@.len(),
    ensures
        x == i32_of_bytes(buf@.subrange(at as int, at + 4)),
{
    let pattern: u32 = read_u32(buf, at);
    if pattern < 0x8000_0000 {
        pattern as i32
    } else {
        (pattern as i64 - 0x1_0000_0000) as i32
    }
}

} // verus!
