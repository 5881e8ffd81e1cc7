use ocis_protocol::packet::{
    RequestPacket, COMMAND_DELETE, COMMAND_GET, COMMAND_SET, HEADER_SIZE, MAGIC_NUMBER,
    PROTOCOL_VERSION,
};
use ocis_protocol::protocol_helper::{createDeleteRequest, createGetRequest, createSetRequest};
use ocis_protocol::request::{CreateRequest, ParseRequest, ParseRequestHeader, SerializeRequest};

fn request_buffer(
    magic: [u8; 4],
    version: u8,
    command: u8,
    total: i32,
    key_length: i32,
    value_length: i32,
    payload: &[u8],
) -> Vec<u8> {
    let mut buf = Vec::new();
    buf.extend_from_slice(&magic);
    buf.push(version);
    buf.push(command);
    buf.extend_from_slice(&total.to_le_bytes());
    buf.extend_from_slice(&key_length.to_le_bytes());
    buf.extend_from_slice(&value_length.to_le_bytes());
    buf.extend_from_slice(payload);
    buf
}

const MAGIC_BYTES: [u8; 4] = [0x4F, 0x43, 0x49, 0x53];

#[test]
fn constants_are_those_of_the_protocol() {
    assert_eq!(MAGIC_NUMBER, 1397310287);
    assert_eq!(MAGIC_NUMBER.to_le_bytes(), MAGIC_BYTES);
    assert_eq!(PROTOCOL_VERSION, 1);
    assert_eq!(HEADER_SIZE, 18);
    assert_eq!((COMMAND_SET, COMMAND_GET, COMMAND_DELETE), (1, 2, 3));
}

#[test]
fn create_request_fills_header_from_key_and_value() {
    let packet = CreateRequest(1, vec![1, 2, 3], Some(vec![9, 8]));
    assert_eq!(
        packet,
        RequestPacket {
            MagicNumber: 1397310287,
            Version: 1,
            CommandType: 1,
            TotalPacketLength: 23,
            KeyLength: 3,
            ValueLength: 2,
            Key: vec![1, 2, 3],
            Value: Some(vec![9, 8]),
        }
    );
}

#[test]
fn create_request_without_value_declares_length_zero() {
    let packet = CreateRequest(2, vec![7; 10], None);
    assert_eq!(packet.ValueLength, 0);
    assert_eq!(packet.KeyLength, 10);
    assert_eq!(packet.TotalPacketLength, 28);
    assert_eq!(packet.Value, None);
}

#[test]
fn create_request_with_empty_key_and_value() {
    let packet = CreateRequest(3, Vec::new(), None);
    assert_eq!(packet.TotalPacketLength, 18);
    assert_eq!(packet.KeyLength, 0);
    assert_eq!(SerializeRequest(&packet).len(), 18);
}

#[test]
fn get_request_for_foo_serialises_to_21_bytes() {
    let bytes = SerializeRequest(&createGetRequest("foo"));
    assert_eq!(bytes.len(), 21);
    assert_eq!(bytes[4], 1);
    assert_eq!(bytes[5], 2);
    assert_eq!(&bytes[6..10], &[21, 0, 0, 0]);
    assert_eq!(&bytes[10..14], &[3, 0, 0, 0]);
    assert_eq!(&bytes[14..18], &[0, 0, 0, 0]);
    assert_eq!(&bytes[18..], b"foo");
}

#[test]
fn set_request_serialises_to_exact_bytes() {
    let bytes = SerializeRequest(&createSetRequest("k", "vw"));
    assert_eq!(
        bytes,
        vec![0x4F, 0x43, 0x49, 0x53, 1, 1, 21, 0, 0, 0, 1, 0, 0, 0, 2, 0, 0, 0, b'k', b'v', b'w']
    );
}

#[test]
fn delete_request_carries_code_three_and_no_value() {
    let packet = createDeleteRequest("gone");
    assert_eq!(packet.CommandType, 3);
    assert_eq!(packet.Value, None);
    assert_eq!(packet.Key, b"gone".to_vec());
    let bytes = SerializeRequest(&packet);
    assert_eq!(bytes[5], 3);
    assert_eq!(bytes.len(), 22);
}

#[test]
fn set_request_measures_lengths_in_bytes_not_characters() {
    let packet = createSetRequest("clé", "€");
    assert_eq!(packet.KeyLength, 4);
    assert_eq!(packet.ValueLength, 3);
    assert_eq!(packet.TotalPacketLength, 25);
    assert_eq!(packet.Value, Some(vec![0xE2, 0x82, 0xAC]));
}

#[test]
fn serialised_length_is_total_packet_length() {
    for (key, value) in [
        (Vec::new(), None),
        (vec![1u8; 5], None),
        (vec![1u8; 5], Some(vec![2u8; 300])),
        (Vec::new(), Some(vec![2u8; 1])),
    ] {
        let key_len = key.len();
        let value_len = value.as_ref().map_or(0, |v: &Vec<u8>| v.len());
        let packet = CreateRequest(1, key, value);
        let bytes = SerializeRequest(&packet);
        assert_eq!(bytes.len(), packet.TotalPacketLength as usize);
        assert_eq!(bytes.len(), 18 + key_len + value_len);
    }
}

#[test]
fn multi_byte_lengths_go_out_least_significant_byte_first() {
    let packet = CreateRequest(1, vec![0; 0x0102], Some(vec![0; 0x030405]));
    let bytes = SerializeRequest(&packet);
    assert_eq!(&bytes[10..14], &[0x02, 0x01, 0x00, 0x00]);
    assert_eq!(&bytes[14..18], &[0x05, 0x04, 0x03, 0x00]);
    assert_eq!(&bytes[6..10], &(18i32 + 0x0102 + 0x030405).to_le_bytes());
}

#[test]
fn command_code_goes_out_as_its_lowest_byte() {
    assert_eq!(SerializeRequest(&CreateRequest(257, vec![1], None))[5], 1);
    assert_eq!(SerializeRequest(&CreateRequest(-1, vec![1], None))[5], 255);
    assert_eq!(SerializeRequest(&CreateRequest(256, vec![1], None))[5], 0);
    assert_eq!(SerializeRequest(&CreateRequest(i32::MIN, vec![1], None))[5], 0);
    assert_eq!(SerializeRequest(&CreateRequest(i32::MAX, vec![1], None))[5], 255);
    assert_eq!(SerializeRequest(&CreateRequest(-200, vec![1], None))[5], 56);
}

#[test]
fn serialise_emits_fields_as_they_stand() {
    let packet = RequestPacket {
        MagicNumber: 0x01020304,
        Version: 9,
        CommandType: 2,
        TotalPacketLength: -2,
        KeyLength: 77,
        ValueLength: i32::MIN,
        Key: vec![5],
        Value: Some(vec![6, 7]),
    };
    assert_eq!(
        SerializeRequest(&packet),
        vec![
            4, 3, 2, 1, 9, 2, 0xFE, 0xFF, 0xFF, 0xFF, 77, 0, 0, 0, 0, 0, 0, 0x80, 5, 6, 7
        ]
    );
}

#[test]
fn request_round_trips_for_each_command() {
    for command in [1, 2, 3] {
        for value in [None, Some(b"value".to_vec())] {
            let packet = CreateRequest(command, b"some key".to_vec(), value);
            let decoded = ParseRequest(&SerializeRequest(&packet));
            assert_eq!(decoded, Some(packet));
        }
    }
}

#[test]
fn helper_requests_round_trip() {
    for packet in [
        createSetRequest("name", "value"),
        createGetRequest("name"),
        createDeleteRequest("name"),
    ] {
        assert_eq!(ParseRequest(&SerializeRequest(&packet)), Some(packet));
    }
}

#[test]
fn empty_value_decodes_as_absent() {
    let packet = CreateRequest(1, b"k".to_vec(), Some(Vec::new()));
    let decoded = ParseRequest(&SerializeRequest(&packet)).unwrap();
    assert_eq!(decoded.Value, None);
    assert_eq!(decoded.ValueLength, 0);
    assert_eq!(decoded.Key, b"k".to_vec());
}

#[test]
fn header_of_short_buffer_is_nothing() {
    let bytes = SerializeRequest(&createGetRequest("foo"));
    for n in 0..18 {
        assert_eq!(ParseRequestHeader(&bytes[..n]), None);
        assert_eq!(ParseRequest(&bytes[..n]), None);
    }
}

#[test]
fn header_alone_gives_fields_with_empty_key() {
    let bytes = SerializeRequest(&createSetRequest("key", "value"));
    let expected = RequestPacket {
        MagicNumber: 1397310287,
        Version: 1,
        CommandType: 1,
        TotalPacketLength: 26,
        KeyLength: 3,
        ValueLength: 5,
        Key: Vec::new(),
        Value: None,
    };
    assert_eq!(ParseRequestHeader(&bytes[..18]), Some(expected.clone()));
    assert_eq!(ParseRequestHeader(&bytes), Some(expected));
}

#[test]
fn header_widens_the_command_byte() {
    let buf = request_buffer(MAGIC_BYTES, 1, 200, 18, 0, 0, &[]);
    assert_eq!(ParseRequestHeader(&buf).unwrap().CommandType, 200);
}

#[test]
fn header_with_wrong_magic_is_nothing() {
    let buf = request_buffer([0x4F, 0x43, 0x49, 0x54], 1, 2, 18, 0, 0, &[]);
    assert_eq!(ParseRequestHeader(&buf), None);
    assert_eq!(ParseRequest(&buf), None);
    let reversed = request_buffer([0x53, 0x49, 0x43, 0x4F], 1, 2, 18, 0, 0, &[]);
    assert_eq!(ParseRequestHeader(&reversed), None);
}

#[test]
fn header_with_wrong_version_is_nothing() {
    let buf = request_buffer(MAGIC_BYTES, 2, 2, 18, 0, 0, &[]);
    assert_eq!(ParseRequestHeader(&buf), None);
    assert_eq!(ParseRequest(&buf), None);
}

#[test]
fn truncated_request_is_nothing() {
    let bytes = SerializeRequest(&createSetRequest("key", "value"));
    for n in 18..bytes.len() {
        assert!(ParseRequestHeader(&bytes[..n]).is_some());
        assert_eq!(ParseRequest(&bytes[..n]), None);
    }
    assert!(ParseRequest(&bytes).is_some());
}

#[test]
fn bytes_after_the_request_are_ignored() {
    let packet = createSetRequest("key", "value");
    let mut bytes = SerializeRequest(&packet);
    bytes.extend_from_slice(&[1, 2, 3, 4]);
    assert_eq!(ParseRequest(&bytes), Some(packet));
}

#[test]
fn key_that_ends_after_the_buffer_is_nothing() {
    let buf = request_buffer(MAGIC_BYTES, 1, 2, 18, 5, 0, &[1, 2, 3, 4]);
    assert_eq!(ParseRequest(&buf), None);
    let huge = request_buffer(MAGIC_BYTES, 1, 2, 18, i32::MAX, 0, &[1, 2, 3, 4]);
    assert_eq!(ParseRequest(&huge), None);
}

#[test]
fn negative_key_length_is_nothing() {
    let buf = request_buffer(MAGIC_BYTES, 1, 2, 18, -1, 0, &[1, 2, 3, 4]);
    assert!(ParseRequestHeader(&buf).is_some());
    assert_eq!(ParseRequest(&buf), None);
}

#[test]
fn value_that_ends_after_the_buffer_is_nothing() {
    let buf = request_buffer(MAGIC_BYTES, 1, 1, 18, 2, 3, &[1, 2, 3, 4]);
    assert_eq!(ParseRequest(&buf), None);
    let huge = request_buffer(MAGIC_BYTES, 1, 1, 18, i32::MAX, i32::MAX, &[1, 2, 3, 4]);
    assert_eq!(ParseRequest(&huge), None);
    let huge_value = request_buffer(MAGIC_BYTES, 1, 1, 18, 1, i32::MAX, &[1, 2, 3, 4]);
    assert_eq!(ParseRequest(&huge_value), None);
}

#[test]
fn negative_value_length_reads_no_value() {
    let buf = request_buffer(MAGIC_BYTES, 1, 1, 18, 2, -7, &[1, 2, 3, 4]);
    let packet = ParseRequest(&buf).unwrap();
    assert_eq!(packet.Key, vec![1, 2]);
    assert_eq!(packet.Value, None);
    assert_eq!(packet.ValueLength, -7);
}

#[test]
fn request_packet_length_is_not_held_against_the_lengths() {
    let buf = request_buffer(MAGIC_BYTES, 1, 1, 5, 1, 2, &[1, 2, 3, 4]);
    assert_eq!(
        ParseRequest(&buf),
        Some(RequestPacket {
            MagicNumber: 1397310287,
            Version: 1,
            CommandType: 1,
            TotalPacketLength: 5,
            KeyLength: 1,
            ValueLength: 2,
            Key: vec![1],
            Value: Some(vec![2, 3]),
        })
    );
    let negative = request_buffer(MAGIC_BYTES, 1, 1, -5, 1, 0, &[1]);
    assert_eq!(ParseRequest(&negative).unwrap().TotalPacketLength, -5);
}

#[test]
fn declared_packet_length_beyond_buffer_is_nothing() {
    let buf = request_buffer(MAGIC_BYTES, 1, 1, 23, 1, 2, &[1, 2, 3, 4]);
    assert_eq!(ParseRequest(&buf), None);
    let exact = request_buffer(MAGIC_BYTES, 1, 1, 22, 1, 2, &[1, 2, 3, 4]);
    assert!(ParseRequest(&exact).is_some());
}
