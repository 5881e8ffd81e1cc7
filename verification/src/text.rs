//! Text fields: UTF-8 in both directions.

use vstd::prelude::*;
use vstd::slice::slice_to_vec;
use vstd::utf8::{decode_utf8, encode_utf8, valid_utf8};

verus! {

/// The text that lossy decoding makes of bytes that are not valid UTF-8:
/// every part that cannot be decoded gives way to U+FFFD, the rest is
/// decoded. It depends on the bytes alone.
pub uninterp spec fn lossy_text(bytes: Seq<u8>) -> Seq<char>;

/// The text that `bytes` stand for: the characters that they encode where
/// they are valid UTF-8, and the lossy reading otherwise.
pub open spec fn utf8_text(bytes: Seq<u8>) -> Seq<char> {
    if valid_utf8(bytes) {
        decode_utf8(bytes)
    } else {
        lossy_text(bytes)
    }
}

/// Calls `String::from_utf8_lossy` of the standard library and takes the
/// result as an owned string. Trusted, as the documentation of that function
/// has it: valid UTF-8 is decoded as it stands, and in other input each
/// invalid part is replaced by U+FFFD, which never fails.
#[verifier::external_body]
fn decode_lossy(bytes: &[u8]) -> (text: String)
    ensures
        valid_utf8(bytes@) ==> text@ == decode_utf8(bytes@),
        !valid_utf8(bytes@) ==> text@ == lossy_text(bytes@),
{
    String::from_utf8_lossy(bytes).into_owned()
}

/// The UTF-8 encoding of `s`.
pub fn stringToBytes(s: &str) -> (bytes: Vec<u8>)
    ensures
        bytes@ == encode_utf8(s@),
{
    slice_to_vec(s.as_bytes())
}

/// The text that `bytes` stand for. Never fails: bytes that are not valid
/// UTF-8 are read lossily.
pub fn bytesToString(bytes: &[u8]) -> (text: String)
    ensures
        text@ == utf8_text(bytes@),
{
    decode_lossy(bytes)
}

} // verus!
