//! Decoding of responses.

use vstd::prelude::*;
use vstd::slice::{slice_subrange, slice_to_vec};
use vstd::utf8::encode_utf8;
use crate::header::{header_bytes, header_of, read_header, Header};
use crate::packet::{
    ParseModel, ParseResult_1, ResponseModel, ResponsePacket, MAGIC_NUMBER, PROTOCOL_VERSION,
};
use crate::text::{bytesToString, utf8_text};

verus! {

/// The error text for a magic number or a version that is not this
/// protocol's.
pub open spec fn invalid_header_text() -> Seq<char> {
    "invalid header"@
}

/// The error text for a negative length of the value or of the error
/// message.
pub open spec fn invalid_length_text() -> Seq<char> {
    "invalid length field"@
}

/// The error text for a packet length that is not the sum of the header and
/// the two lengths.
pub open spec fn length_mismatch_text() -> Seq<char> {
    "packet length mismatch"@
}

/// The response that a complete buffer with the valid header `h` holds: the
/// value follows the header, the error message follows the value, and each
/// is absent where its length is zero.
pub open spec fn response_body(h: Header, buf: Seq<u8>) -> ResponseModel {
    let value_end = 18 + h.first_length;
    ResponseModel {
        magic_number: h.magic_number,
        version: h.version,
        status_code: h.code,
        total_packet_length: h.total_length,
        value_length: h.first_length,
        error_message_length: h.second_length,
        value: if h.first_length > 0 {
            Some(buf.subrange(18, value_end))
        } else {
            None
        },
        error_message: if h.second_length > 0 {
            Some(utf8_text(buf.subrange(value_end, value_end + h.second_length)))
        } else {
            None
        },
    }
}

/// The bytes of an optional byte sequence: none where it is absent.
pub open spec fn payload_bytes(bytes: Option<Seq<u8>>) -> Seq<u8> {
    match bytes {
        Some(b) => b,
        None => Seq::<u8>::empty(),
    }
}

/// The UTF-8 bytes of an optional text: none where it is absent.
pub open spec fn message_bytes(message: Option<Seq<char>>) -> Seq<u8> {
    match message {
        Some(m) => encode_utf8(m),
        None => Seq::<u8>::empty(),
    }
}

/// The response that carries `status_code`, `value` and `message`: its
/// header names this protocol and declares the lengths of what it carries.
pub open spec fn new_response(
    status_code: u8,
    value: Option<Seq<u8>>,
    message: Option<Seq<char>>,
) -> ResponseModel {
    let value_len = payload_bytes(value).len();
    let message_len = message_bytes(message).len();
    ResponseModel {
        magic_number: MAGIC_NUMBER,
        version: PROTOCOL_VERSION,
        status_code,
        total_packet_length: (18 + value_len + message_len) as i32,
        value_length: value_len as i32,
        error_message_length: message_len as i32,
        value,
        error_message: message,
    }
}

/// The bytes of `r` on the wire: the header, the value where there is one,
/// and the error message in UTF-8 where there is one.
pub open spec fn response_bytes(r: ResponseModel) -> Seq<u8> {
    header_bytes(
        Header {
            magic_number: r.magic_number,
            version: r.version,
            code: r.status_code,
            total_length: r.total_packet_length,
            first_length: r.value_length,
            second_length: r.error_message_length,
        },
    ) + payload_bytes(r.value) + message_bytes(r.error_message)
}

/// What decoding `buf` as a response comes to.
///
/// A buffer shorter than the header, or shorter than the packet length that
/// its header declares, is insufficient, whatever else is wrong with it. A
/// buffer that is long enough is malformed where its magic number or version
/// is not this protocol's, else where one of its two lengths is negative,
/// else where its packet length is not 18 plus the two lengths. Every other
/// buffer holds a response; bytes after the packet are not looked at.
pub open spec fn response_outcome(buf: Seq<u8>) -> ParseModel<ResponseModel> {
    if buf.len() < 18 {
        ParseModel::InsufficientData
    } else {
        let h = header_of(buf);
        if buf.len() < h.total_length {
            ParseModel::InsufficientData
        } else if h.magic_number != MAGIC_NUMBER || h.version != PROTOCOL_VERSION {
            ParseModel::Error(invalid_header_text())
        } else if h.first_length < 0 || h.second_length < 0 {
            ParseModel::Error(invalid_length_text())
        } else if h.total_length != 18 + h.first_length + h.second_length {
            ParseModel::Error(length_mismatch_text())
        } else {
            ParseModel::Success(response_body(h, buf))
        }
    }
}

/// Decodes a response from `buffer`.
///
/// The checks come in a fixed order, and length comes first: a buffer that
/// is too short is reported as insufficient even where its header is
/// invalid, so that a caller who reads from a stream goes on reading. No
/// input makes this function fail in any other way than by the outcome it
/// returns. The sum of the lengths is taken without wrapping.
pub fn DeserializeResponse(buffer: &[u8]) -> (outcome: ParseResult_1<ResponsePacket>)
    ensures
        outcome@ == response_outcome(buffer@),
        outcome@ matches ParseModel::Success(response) ==> response.well_formed(),
{
    if buffer.len() < 18 {
        return ParseResult_1::InsufficientData;
    }
    let h = read_header(buffer);
    if h.total_length > 0 && buffer.len() < h.total_length as usize {
        return ParseResult_1::InsufficientData;
    }
    if h.magic_number != MAGIC_NUMBER || h.version != PROTOCOL_VERSION {
        return ParseResult_1::ParseError("invalid header".to_string());
    }
    if h.first_length < 0 || h.second_length < 0 {
        return ParseResult_1::ParseError("invalid length field".to_string());
    }
    if h.total_length as i64 != 18 + h.first_length as i64 + h.second_length as i64 {
        return ParseResult_1::ParseError("packet length mismatch".to_string());
    }
    let value_end: usize = 18 + h.first_length as usize;
    let message_end: usize = value_end + h.second_length as usize;
    let value = if h.first_length > 0 {
        Some(slice_to_vec(slice_subrange(buffer, 18, value_end)))
    } else {
        None
    };
    let error_message = if h.second_length > 0 {
        Some(bytesToString(slice_subrange(buffer, value_end, message_end)))
    } else {
        None
    };
    ParseResult_1::ParseSuccess(
        ResponsePacket {
            MagicNumber: h.magic_number,
            Version: h.version,
            StatusCode: h.code,
            TotalPacketLength: h.total_length,
            ValueLength: h.first_length,
            ErrorMessageLength: h.second_length,
            Value: value,
            ErrorMessage: error_message,
        },
    )
}

} // verus!
