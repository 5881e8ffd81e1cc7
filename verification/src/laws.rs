//! What holds of the codec as a whole.

use vstd::prelude::*;
use vstd::utf8::{encode_utf8, encode_utf8_decode_utf8, encode_utf8_valid_utf8};
use crate::header::{
    header_bytes, header_of, lemma_header_of_prefix, lemma_header_round_trip, Header,
};
use crate::packet::{
    payload_len, ParseModel, RequestModel, ResponseModel, MAGIC_NUMBER, PROTOCOL_VERSION,
};
use crate::request::{
    bare_request, command_byte, new_request, parsed_request, request_bytes, request_header,
};
use crate::text::utf8_text;
use crate::response::{
    invalid_header_text, invalid_length_text, length_mismatch_text, message_bytes, new_response,
    payload_bytes, response_bytes, response_outcome,
};

verus! {

/// A request that was built and serialised decodes to itself.
///
/// This holds for every command code that fits the one byte it has on the
/// wire, the three commands of the protocol among them, and for a value that
/// is absent or not empty: an empty value is not told from an absent one on
/// the wire, and decodes as absent.
pub proof fn request_round_trip(command_type: i32, key: Seq<u8>, value: Option<Seq<u8>>)
    requires
        0 <= command_type <= 255,
        18 + key.len() + payload_len(value) <= i32::MAX,
        value is Some ==> value->0.len() > 0,
    ensures
        parsed_request(request_bytes(new_request(command_type, key, value))) == Some(
            new_request(command_type, key, value),
        ),
{
    let r = new_request(command_type, key, value);
    let buf = request_bytes(r);
    lemma_request_layout(r);
    assert(command_byte(command_type) as i32 == command_type);
    assert(bare_request(request_header(r)) == (RequestModel {
        key: Seq::<u8>::empty(),
        value: None,
        ..r
    }));
}

/// The layout of a serialised request: the header is read back from its
/// start, the key lies behind the header and the value behind the key.
proof fn lemma_request_layout(r: RequestModel)
    ensures
        request_bytes(r).len() == 18 + r.key.len() + payload_len(r.value),
        header_of(request_bytes(r)) == request_header(r),
        request_bytes(r).subrange(18, 18 + r.key.len() as int) == r.key,
        r.value is Some ==> request_bytes(r).subrange(
            18 + r.key.len() as int,
            18 + r.key.len() as int + r.value->0.len() as int,
        ) == r.value->0,
{
    let h = request_header(r);
    let tail = r.key + payload_bytes(r.value);
    let buf = request_bytes(r);
    lemma_header_round_trip(h, tail);
    assert(buf =~= header_bytes(h) + tail);
    assert(buf.subrange(18, 18 + r.key.len() as int) =~= r.key);
    if r.value is Some {
        let key_end: int = 18 + r.key.len() as int;
        assert(buf.subrange(key_end, key_end + r.value->0.len() as int) =~= r.value->0);
    }
}

/// A request that was built has the length on the wire that its header
/// declares: 18 bytes, the key, and the value where there is one.
pub proof fn request_length(command_type: i32, key: Seq<u8>, value: Option<Seq<u8>>)
    requires
        18 + key.len() + payload_len(value) <= i32::MAX,
    ensures
        new_request(command_type, key, value).well_formed(),
        request_bytes(new_request(command_type, key, value)).len() == new_request(
            command_type,
            key,
            value,
        ).total_packet_length,
        new_request(command_type, key, value).total_packet_length == 18 + key.len() + payload_len(
            value,
        ),
{
    let r = new_request(command_type, key, value);
    lemma_header_round_trip(request_header(r), Seq::<u8>::empty());
}

/// A response that is written out with its header decodes to itself.
///
/// This holds where the header's lengths fit 32 bits and where the value and
/// the message are absent or not empty: an empty one is not told from an
/// absent one on the wire, and decodes as absent. Bytes that follow the
/// packet change nothing.
pub proof fn response_round_trip(
    status_code: u8,
    value: Option<Seq<u8>>,
    message: Option<Seq<char>>,
    rest: Seq<u8>,
)
    requires
        18 + payload_bytes(value).len() + message_bytes(message).len() <= i32::MAX,
        value is Some ==> value->0.len() > 0,
        message is Some ==> message->0.len() > 0,
    ensures
        response_outcome(response_bytes(new_response(status_code, value, message)) + rest)
            == ParseModel::Success(new_response(status_code, value, message)),
{
    let r = new_response(status_code, value, message);
    let h = Header {
        magic_number: r.magic_number,
        version: r.version,
        code: r.status_code,
        total_length: r.total_packet_length,
        first_length: r.value_length,
        second_length: r.error_message_length,
    };
    let value_bytes = payload_bytes(value);
    let text_bytes = message_bytes(message);
    let buf = response_bytes(r) + rest;
    lemma_header_round_trip(h, value_bytes + text_bytes + rest);
    assert(buf =~= header_bytes(h) + (value_bytes + text_bytes + rest));
    let decoded = response_outcome(buf)->Success_0;
    if value is Some {
        assert(decoded.value->0 =~= value->0);
    }
    if message is Some {
        let m = message->0;
        let value_end: int = 18 + value_bytes.len() as int;
        let message_end: int = value_end + text_bytes.len() as int;
        assert(buf.subrange(value_end, message_end) =~= encode_utf8(m));
        encode_utf8_valid_utf8(m);
        encode_utf8_decode_utf8(m);
        lemma_encoding_not_empty(m);
    }
}

/// Text that is not empty has an encoding that is not empty.
proof fn lemma_encoding_not_empty(text: Seq<char>)
    requires
        text.len() > 0,
    ensures
        encode_utf8(text).len() > 0,
{
    encode_utf8_valid_utf8(text);
    encode_utf8_decode_utf8(text);
    if encode_utf8(text).len() == 0 {
        assert(vstd::utf8::decode_utf8(encode_utf8(text)) =~= Seq::<char>::empty());
    }
}

/// Text that was encoded as UTF-8 is read back unchanged.
pub proof fn text_round_trip(text: Seq<char>)
    ensures
        utf8_text(encode_utf8(text)) == text,
{
    encode_utf8_valid_utf8(text);
    encode_utf8_decode_utf8(text);
}

/// Every proper beginning of a response is reported as insufficient data.
///
/// Cut to fewer than 18 bytes, any buffer is insufficient. Cut to 18 bytes or
/// more, but fewer than the packet length in its header, it is insufficient
/// too, whatever its header holds otherwise. So is in particular every
/// beginning of a valid response that stops before its end.
pub proof fn response_truncation(buf: Seq<u8>, n: int)
    requires
        0 <= n <= buf.len(),
        n < 18 || (buf.len() >= 18 && n < header_of(buf).total_length),
    ensures
        response_outcome(buf.subrange(0, n)) == ParseModel::<ResponseModel>::InsufficientData,
{
    if n >= 18 {
        lemma_header_of_prefix(buf, n);
    }
}

/// A response whose magic number or version was altered is rejected as
/// having an invalid header.
///
/// `good` decodes to a response. `altered` has the same length and the same
/// bytes from the status code on, and differs in the five bytes before it,
/// which hold the magic number and the version.
pub proof fn response_rejects_altered_header(good: Seq<u8>, altered: Seq<u8>)
    requires
        response_outcome(good) is Success,
        altered.len() == good.len(),
        altered.subrange(5, altered.len() as int) == good.subrange(5, good.len() as int),
        altered.subrange(0, 5) != good.subrange(0, 5),
    ensures
        response_outcome(altered) == ParseModel::<ResponseModel>::Error(
            invalid_header_text(),
        ),
{
    let tail_a = altered.subrange(5, altered.len() as int);
    let tail_g = good.subrange(5, good.len() as int);
    assert forall|i: int| 5 <= i < good.len() implies altered[i] == good[i] by {
        assert(altered[i] == tail_a[i - 5]);
        assert(good[i] == tail_g[i - 5]);
    }
    assert(altered.subrange(6, 10) =~= good.subrange(6, 10));
    assert(altered.subrange(10, 14) =~= good.subrange(10, 14));
    assert(altered.subrange(14, 18) =~= good.subrange(14, 18));
    let ha = header_of(altered);
    let hg = header_of(good);
    assert(ha.total_length == hg.total_length);
    if ha.magic_number == MAGIC_NUMBER && ha.version == PROTOCOL_VERSION {
        crate::wire::lemma_u32_bytes_of_bytes(altered.subrange(0, 4));
        crate::wire::lemma_u32_bytes_of_bytes(good.subrange(0, 4));
        assert(altered.subrange(0, 4) == good.subrange(0, 4));
        assert forall|i: int| 0 <= i < 5 implies altered[i] == good[i] by {
            if i < 4 {
                assert(altered[i] == altered.subrange(0, 4)[i]);
                assert(good[i] == good.subrange(0, 4)[i]);
            }
        }
        assert(altered.subrange(0, 5) =~= good.subrange(0, 5));
    }
}

/// A response with a negative length is rejected as having an invalid length
/// field.
///
/// This holds of a buffer that is as long as its header declares and starts
/// with this protocol's magic number and version: length and header are
/// looked at first. A value length of -1 is one such case.
pub proof fn response_rejects_negative_length(buf: Seq<u8>)
    requires
        buf.len() >= 18,
        buf.len() >= header_of(buf).total_length,
        header_of(buf).magic_number == MAGIC_NUMBER,
        header_of(buf).version == PROTOCOL_VERSION,
        header_of(buf).first_length < 0 || header_of(buf).second_length < 0,
    ensures
        response_outcome(buf) == ParseModel::<ResponseModel>::Error(
            invalid_length_text(),
        ),
{
}

/// A response whose packet length is not 18 plus its two lengths is rejected
/// as a length mismatch.
///
/// This holds of a buffer that is as long as its header declares, starts with
/// this protocol's magic number and version and has no negative length: those
/// are looked at first.
pub proof fn response_rejects_length_mismatch(buf: Seq<u8>)
    requires
        buf.len() >= 18,
        buf.len() >= header_of(buf).total_length,
        header_of(buf).magic_number == MAGIC_NUMBER,
        header_of(buf).version == PROTOCOL_VERSION,
        header_of(buf).first_length >= 0,
        header_of(buf).second_length >= 0,
        header_of(buf).total_length != 18 + header_of(buf).first_length + header_of(
            buf,
        ).second_length,
    ensures
        response_outcome(buf) == ParseModel::<ResponseModel>::Error(
            length_mismatch_text(),
        ),
{
}

} // verus!
