//! The fixed header that starts every packet.
//!
//! Requests and responses share its layout: the magic number (4 bytes), the
//! version (1), a code (1: the command of a request, the status of a
//! response), the length of the whole packet (4) and the lengths of the two
//! variable parts that follow the header (4 each).

use vstd::prelude::*;
use crate::wire::{
    i32_bytes, i32_of_bytes, lemma_i32_round_trip, lemma_u32_round_trip, push_i32, push_u32,
    read_i32, read_u32, u32_bytes, u32_of_bytes,
};

verus! {

/// The fields of a header.
#[derive(Clone, Copy, Debug)]
pub struct Header {
    pub magic_number: u32,
    pub version: u8,
    pub code: u8,
    pub total_length: i32,
    pub first_length: i32,
    pub second_length: i32,
}

/// The 18 bytes of a header.
pub open spec fn header_bytes(h: Header) -> Seq<u8> {
    u32_bytes(h.magic_number) + seq![h.version, h.code] + i32_bytes(h.total_length) + i32_bytes(
        h.first_length,
    ) + i32_bytes(h.second_length)
}

/// The header that the first 18 bytes of `buf` hold.
pub open spec fn header_of(buf: Seq<u8>) -> Header
    recommends
        buf.len() >= 18,
{
    Header {
        magic_number: u32_of_bytes(buf.subrange(0, 4)),
        version: buf[4],
        code: buf[5],
        total_length: i32_of_bytes(buf.subrange(6, 10)),
        first_length: i32_of_bytes(buf.subrange(10, 14)),
        second_length: i32_of_bytes(buf.subrange(14, 18)),
    }
}

/// A header takes 18 bytes, and is read back from them whatever follows.
pub proof fn lemma_header_round_trip(h: Header, rest: Seq<u8>)
    ensures
        header_bytes(h).len() == 18,
        header_of(header_bytes(h) + rest) == h,
{
    let buf = header_bytes(h) + rest;
    lemma_u32_round_trip(h.magic_number);
    lemma_i32_round_trip(h.total_length);
    lemma_i32_round_trip(h.first_length);
    lemma_i32_round_trip(h.second_length);
    assert(buf.subrange(0, 4) =~= u32_bytes(h.magic_number));
    assert(buf.subrange(6, 10) =~= i32_bytes(h.total_length));
    assert(buf.subrange(10, 14) =~= i32_bytes(h.first_length));
    assert(buf.subrange(14, 18) =~= i32_bytes(h.second_length));
}

/// The header of a buffer is that of each of its prefixes of 18 bytes or
/// more.
pub proof fn lemma_header_of_prefix(buf: Seq<u8>, n: int)
    requires
        18 <= n <= buf.len(),
    ensures
        header_of(buf.subrange(0, n)) == header_of(buf),
{
    let cut = buf.subrange(0, n);
    assert(cut.subrange(0, 4) =~= buf.subrange(0, 4));
    assert(cut.subrange(6, 10) =~= buf.subrange(6, 10));
    assert(cut.subrange(10, 14) =~= buf.subrange(10, 14));
    assert(cut.subrange(14, 18) =~= buf.subrange(14, 18));
}

/// Reads the header of `buf`.
pub fn read_header(buf: &[u8]) -> (h: Header)
    requires
        buf@.len() >= 18,
    ensures
        h == header_of(buf@),
{
    Header {
        magic_number: read_u32(buf, 0),
        version: buf[4],
        code: buf[5],
        total_length: read_i32(buf, 6),
        first_length: read_i32(buf, 10),
        second_length: read_i32(buf, 14),
    }
}

/// Appends the 18 bytes of `h` to `out`.
pub fn push_header(out: &mut Vec<u8>, h: Header)
    ensures
        final(out)@ == old(out)@ + header_bytes(h),
{
    push_u32(out, h.magic_number);
    out.push(h.version);
    out.push(h.code);
    push_i32(out, h.total_length);
    push_i32(out, h.first_length);
    push_i32(out, h.second_length);
    assert(out@ =~= old(out)@ + header_bytes(h));
}

} // verus!
