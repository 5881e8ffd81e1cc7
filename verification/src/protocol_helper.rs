//! Requests for the three commands, from text.

use vstd::prelude::*;
use vstd::utf8::encode_utf8;
use crate::packet::{RequestPacket, COMMAND_DELETE, COMMAND_GET, COMMAND_SET};
use crate::request::{new_request, CreateRequest};

pub use crate::text::{bytesToString, stringToBytes};

verus! {

/// A request to store `value` under `key`, both sent as UTF-8.
pub fn createSetRequest(key: &str, value: &str) -> (packet: RequestPacket)
    requires
        18 + encode_utf8(key@).len() + encode_utf8(value@).len() <= i32::MAX,
    ensures
        packet@ == new_request(COMMAND_SET, encode_utf8(key@), Some(encode_utf8(value@))),
        packet@.well_formed(),
{
    CreateRequest(COMMAND_SET, stringToBytes(key), Some(stringToBytes(value)))
}

/// A request for the value of `key`, sent as UTF-8. It carries no value.
pub fn createGetRequest(key: &str) -> (packet: RequestPacket)
    requires
        18 + encode_utf8(key@).len() <= i32::MAX,
    ensures
        packet@ == new_request(COMMAND_GET, encode_utf8(key@), None),
        packet@.well_formed(),
{
    CreateRequest(COMMAND_GET, stringToBytes(key), None)
}

/// A request to remove `key`, sent as UTF-8. It carries no value.
pub fn createDeleteRequest(key: &str) -> (packet: RequestPacket)
    requires
        18 + encode_utf8(key@).len() <= i32::MAX,
    ensures
        packet@ == new_request(COMMAND_DELETE, encode_utf8(key@), None),
        packet@.well_formed(),
{
    CreateRequest(COMMAND_DELETE, stringToBytes(key), None)
}

} // verus!
