//! The two packets of the protocol and their mathematical models.

use vstd::prelude::*;

verus! {

/// The identifier that starts every packet.
pub const MAGIC_NUMBER: u32 = 1397310287;

/// The protocol version that this crate speaks.
pub const PROTOCOL_VERSION: u8 = 1;

/// The size in bytes of the fixed header of requests and responses.
pub const HEADER_SIZE: usize = 18;

/// Command code of a request that stores a value under a key.
pub const COMMAND_SET: i32 = 1;

/// Command code of a request that asks for the value of a key.
pub const COMMAND_GET: i32 = 2;

/// Command code of a request that removes a key.
pub const COMMAND_DELETE: i32 = 3;

/// A request, sent by the client.
#[derive(Clone, Debug, Hash, PartialEq, PartialOrd)]
pub struct RequestPacket {
    pub MagicNumber: u32,
    pub Version: u8,
    /// `1` to set, `2` to get, `3` to delete. One byte on the wire.
    pub CommandType: i32,
    pub TotalPacketLength: i32,
    pub KeyLength: i32,
    pub ValueLength: i32,
    pub Key: Vec<u8>,
    pub Value: Option<Vec<u8>>,
}

/// A response, sent by the server.
#[derive(Clone, Debug, Hash, PartialEq, PartialOrd)]
pub struct ResponsePacket {
    pub MagicNumber: u32,
    pub Version: u8,
    pub StatusCode: u8,
    pub TotalPacketLength: i32,
    pub ValueLength: i32,
    pub ErrorMessageLength: i32,
    pub Value: Option<Vec<u8>>,
    pub ErrorMessage: Option<String>,
}

/// What decoding a buffer came to: a packet, a malformed buffer, or a buffer
/// that is too short to tell.
#[derive(Clone, Debug, Hash, PartialEq, PartialOrd)]
pub enum ParseResult_1<T> {
    ParseSuccess(T),
    ParseError(String),
    InsufficientData,
}

/// A request as a mathematical value.
pub struct RequestModel {
    pub magic_number: u32,
    pub version: u8,
    pub command_type: i32,
    pub total_packet_length: i32,
    pub key_length: i32,
    pub value_length: i32,
    pub key: Seq<u8>,
    pub value: Option<Seq<u8>>,
}

/// A response as a mathematical value.
pub struct ResponseModel {
    pub magic_number: u32,
    pub version: u8,
    pub status_code: u8,
    pub total_packet_length: i32,
    pub value_length: i32,
    pub error_message_length: i32,
    pub value: Option<Seq<u8>>,
    pub error_message: Option<Seq<char>>,
}

/// A decoding outcome as a mathematical value.
pub enum ParseModel<V> {
    Success(V),
    Error(Seq<char>),
    InsufficientData,
}

/// The bytes of an optional byte vector.
pub open spec fn bytes_view(bytes: Option<Vec<u8>>) -> Option<Seq<u8>> {
    match bytes {
        Some(b) => Some(b@),
        None => None,
    }
}

/// The characters of an optional string.
pub open spec fn text_view(text: Option<String>) -> Option<Seq<char>> {
    match text {
        Some(t) => Some(t@),
        None => None,
    }
}

/// The number of bytes of an optional byte sequence: none where it is absent.
pub open spec fn payload_len(bytes: Option<Seq<u8>>) -> nat {
    match bytes {
        Some(b) => b.len(),
        None => 0,
    }
}

impl RequestModel {
    /// The header names this protocol and the lengths that it declares are
    /// those of the key and the value that it carries.
    pub open spec fn well_formed(self) -> bool {
        &&& self.magic_number == MAGIC_NUMBER
        &&& self.version == PROTOCOL_VERSION
        &&& self.key_length == self.key.len()
        &&& self.value_length == payload_len(self.value)
        &&& self.total_packet_length == HEADER_SIZE + self.key.len() + payload_len(self.value)
    }
}

impl ResponseModel {
    /// The header names this protocol, its two lengths are not negative and
    /// add up with the header to the packet length, the value has the length
    /// declared for it, and the value and the error message are present
    /// exactly where their lengths are positive.
    pub open spec fn well_formed(self) -> bool {
        &&& self.magic_number == MAGIC_NUMBER
        &&& self.version == PROTOCOL_VERSION
        &&& self.value_length >= 0
        &&& self.error_message_length >= 0
        &&& self.total_packet_length == HEADER_SIZE + self.value_length
            + self.error_message_length
        &&& self.value_length == payload_len(self.value)
        &&& (self.value is Some <==> self.value_length > 0)
        &&& (self.error_message is Some <==> self.error_message_length > 0)
    }
}

impl View for RequestPacket {
    type V = RequestModel;

    open spec fn view(&self) -> RequestModel {
        RequestModel {
            magic_number: self.MagicNumber,
            version: self.Version,
            command_type: self.CommandType,
            total_packet_length: self.TotalPacketLength,
            key_length: self.KeyLength,
            value_length: self.ValueLength,
            key: self.Key@,
            value: bytes_view(self.Value),
        }
    }
}

impl View for ResponsePacket {
    type V = ResponseModel;

    open spec fn view(&self) -> ResponseModel {
        ResponseModel {
            magic_number: self.MagicNumber,
            version: self.Version,
            status_code: self.StatusCode,
            total_packet_length: self.TotalPacketLength,
            value_length: self.ValueLength,
            error_message_length: self.ErrorMessageLength,
            value: bytes_view(self.Value),
            error_message: text_view(self.ErrorMessage),
        }
    }
}

impl<T: View> View for ParseResult_1<T> {
    type V = ParseModel<T::V>;

    open spec fn view(&self) -> ParseModel<T::V> {
        match self {
            ParseResult_1::ParseSuccess(packet) => ParseModel::Success(packet@),
            ParseResult_1::ParseError(message) => ParseModel::Error(message@),
            ParseResult_1::InsufficientData => ParseModel::InsufficientData,
        }
    }
}

} // verus!
