//! Construction, serialisation and decoding of requests.

use vstd::prelude::*;
use vstd::slice::{slice_subrange, slice_to_vec};
use crate::header::{header_bytes, header_of, push_header, read_header, Header};
use crate::packet::{
    bytes_view, payload_len, RequestModel, RequestPacket, MAGIC_NUMBER, PROTOCOL_VERSION,
};

verus! {

/// The request that carries `command_type`, `key` and `value`: its header
/// names this protocol and declares the lengths of what it carries.
pub open spec fn new_request(command_type: i32, key: Seq<u8>, value: Option<Seq<u8>>)
    -> RequestModel {
    RequestModel {
        magic_number: MAGIC_NUMBER,
        version: PROTOCOL_VERSION,
        command_type,
        total_packet_length: (18 + key.len() + payload_len(value)) as i32,
        key_length: key.len() as i32,
        value_length: payload_len(value) as i32,
        key,
        value,
    }
}

/// The byte that a command code takes on the wire: its lowest eight bits.
pub open spec fn command_byte(command_type: i32) -> u8 {
    (command_type as int % 256) as u8
}

/// The header that `r` is sent with.
pub open spec fn request_header(r: RequestModel) -> Header {
    Header {
        magic_number: r.magic_number,
        version: r.version,
        code: command_byte(r.command_type),
        total_length: r.total_packet_length,
        first_length: r.key_length,
        second_length: r.value_length,
    }
}

/// The bytes of `r` on the wire: the header, the key, and the value where
/// there is one. The fields go out as they stand, also where the lengths in
/// the header are not those of the key and the value.
pub open spec fn request_bytes(r: RequestModel) -> Seq<u8> {
    header_bytes(request_header(r)) + r.key + match r.value {
        Some(v) => v,
        None => Seq::<u8>::empty(),
    }
}

/// The request that a header stands for before its key and value are read.
pub open spec fn bare_request(h: Header) -> RequestModel {
    RequestModel {
        magic_number: h.magic_number,
        version: h.version,
        command_type: h.code as i32,
        total_packet_length: h.total_length,
        key_length: h.first_length,
        value_length: h.second_length,
        key: Seq::<u8>::empty(),
        value: None,
    }
}

/// What decoding the header of a request from `buf` comes to: the header's
/// fields with an empty key and no value, where `buf` holds 18 bytes or more
/// and starts with this protocol's magic number and version; nothing
/// otherwise.
pub open spec fn parsed_request_header(buf: Seq<u8>) -> Option<RequestModel> {
    if buf.len() < 18 {
        None
    } else {
        let h = header_of(buf);
        if h.magic_number == MAGIC_NUMBER && h.version == PROTOCOL_VERSION {
            Some(bare_request(h))
        } else {
            None
        }
    }
}

/// The key of a request with header `h` can be cut out of `buf`, and so can
/// its value where the header declares one: neither has a negative length or
/// ends after the buffer.
pub open spec fn request_payload_fits(h: Header, buf: Seq<u8>) -> bool {
    &&& h.first_length >= 0
    &&& 18 + h.first_length <= buf.len()
    &&& h.second_length > 0 ==> 18 + h.first_length + h.second_length <= buf.len()
}

/// What decoding a whole request from `buf` comes to.
///
/// Nothing where the header cannot be decoded, where `buf` is shorter than
/// the packet length that the header declares, or where the key or the value
/// cannot be cut out of `buf`. Otherwise the header's fields, with the key
/// taken from offset 18 and the value, where its length is positive, from
/// the end of the key. The packet length is not held against the two
/// lengths.
pub open spec fn parsed_request(buf: Seq<u8>) -> Option<RequestModel> {
    if parsed_request_header(buf) is None {
        None
    } else {
        let h = header_of(buf);
        let key_end = 18 + h.first_length;
        if buf.len() < h.total_length || !request_payload_fits(h, buf) {
            None
        } else {
            Some(
                RequestModel {
                    key: buf.subrange(18, key_end),
                    value: if h.second_length > 0 {
                        Some(buf.subrange(key_end, key_end + h.second_length))
                    } else {
                        None
                    },
                    ..bare_request(h)
                },
            )
        }
    }
}

/// The model of an optional request.
pub open spec fn request_view(packet: Option<RequestPacket>) -> Option<RequestModel> {
    match packet {
        Some(p) => Some(p@),
        None => None,
    }
}

/// Builds the request that carries `commandType`, `key` and `value`.
///
/// The lengths in the header are 32-bit signed integers, so the key and the
/// value together with the header must fit one.
pub fn CreateRequest(commandType: i32, key: Vec<u8>, value: Option<Vec<u8>>) -> (packet:
    RequestPacket)
    requires
        18 + key@.len() + payload_len(bytes_view(value)) <= i32::MAX,
    ensures
        packet@ == new_request(commandType, key@, bytes_view(value)),
        packet@.well_formed(),
{
    let value_len: usize = match &value {
        Some(v) => v.len(),
        None => 0,
    };
    let key_len: usize = key.len();
    RequestPacket {
        MagicNumber: MAGIC_NUMBER,
        Version: PROTOCOL_VERSION,
        CommandType: commandType,
        TotalPacketLength: (18 + key_len + value_len) as i32,
        KeyLength: key_len as i32,
        ValueLength: value_len as i32,
        Key: key,
        Value: value,
    }
}

/// Serialises `packet`: the header, the key, and the value where there is
/// one. The command code goes out as its lowest eight bits.
pub fn SerializeRequest(packet: &RequestPacket) -> (bytes: Vec<u8>)
    ensures
        bytes@ == request_bytes(packet@),
        bytes@.len() == 18 + packet@.key.len() + payload_len(packet@.value),
        packet@.well_formed() ==> bytes@.len() == packet.TotalPacketLength,
{
    let mut bytes: Vec<u8> = Vec::new();
    let code: u8 = low_byte(packet.CommandType);
    push_header(
        &mut bytes,
        Header {
            magic_number: packet.MagicNumber,
            version: packet.Version,
            code,
            total_length: packet.TotalPacketLength,
            first_length: packet.KeyLength,
            second_length: packet.ValueLength,
        },
    );
    proof {
        crate::header::lemma_header_round_trip(request_header(packet@), Seq::<u8>::empty());
    }
    append_bytes(&mut bytes, packet.Key.as_slice());
    match &packet.Value {
        Some(v) => {
            append_bytes(&mut bytes, v.as_slice());
        },
        None => {
            assert(bytes@ =~= request_bytes(packet@));
        },
    }
    bytes
}

/// The lowest eight bits of `x`.
fn low_byte(x: i32) -> (b: u8)
    ensures
        b == command_byte(x),
{
    let shifted: i64 = x as i64 + 0x8000_0000;
    (shifted % 256) as u8
}

/// Appends `more` to `out`.
fn append_bytes(out: &mut Vec<u8>, more: &[u8])
    ensures
        final(out)@ == old(out)@ + more@,
{
    out.extend_from_slice(more);
    assert(out@ =~= old(out)@ + more@);
}

/// Decodes the header of a request from `buffer`, leaving the key empty and
/// the value absent. Returns nothing where fewer than 18 bytes are there (the
/// caller waits for more) and where the magic number or the version is not
/// this protocol's.
pub fn ParseRequestHeader(buffer: &[u8]) -> (header: Option<RequestPacket>)
    ensures
        request_view(header) == parsed_request_header(buffer@),
{
    if buffer.len() < 18 {
        return None;
    }
    let h = read_header(buffer);
    if h.magic_number != MAGIC_NUMBER || h.version != PROTOCOL_VERSION {
        return None;
    }
    Some(
        RequestPacket {
            MagicNumber: h.magic_number,
            Version: h.version,
            CommandType: h.code as i32,
            TotalPacketLength: h.total_length,
            KeyLength: h.first_length,
            ValueLength: h.second_length,
            Key: Vec::new(),
            Value: None,
        },
    )
}

/// Decodes a whole request from `buffer`. Returns nothing where the header
/// cannot be decoded, where the buffer is shorter than the packet that the
/// header declares, and where the key or the value does not lie within the
/// buffer.
pub fn ParseRequest(buffer: &[u8]) -> (packet: Option<RequestPacket>)
    ensures
        request_view(packet) == parsed_request(buffer@),
{
    let header = match ParseRequestHeader(buffer) {
        Some(header) => header,
        None => {
            return None;
        },
    };
    let len: u64 = buffer.len() as u64;
    if header.TotalPacketLength > 0 && len < header.TotalPacketLength as u64 {
        return None;
    }
    if header.KeyLength < 0 || len < 18 + header.KeyLength as u64 {
        return None;
    }
    let key_end: usize = 18 + header.KeyLength as usize;
    let key = slice_to_vec(slice_subrange(buffer, 18, key_end));
    let value = if header.ValueLength > 0 {
        if len < 18 + header.KeyLength as u64 + header.ValueLength as u64 {
            return None;
        }
        let value_end: usize = key_end + header.ValueLength as usize;
        Some(slice_to_vec(slice_subrange(buffer, key_end, value_end)))
    } else {
        None
    };
    Some(
        RequestPacket {
            MagicNumber: header.MagicNumber,
            Version: header.Version,
            CommandType: header.CommandType,
            TotalPacketLength: header.TotalPacketLength,
            KeyLength: header.KeyLength,
            ValueLength: header.ValueLength,
            Key: key,
            Value: value,
        },
    )
}

} // verus!
