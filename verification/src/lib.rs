//! Wire encoding of a length-prefixed key-value protocol.
//!
//! A client sends a request (set, get or delete of a key) and the server
//! answers with a response (a status, and a value or an error text). Both
//! start with the same 18-byte header. This crate builds and serialises
//! requests and decodes requests and responses from byte buffers that may be
//! complete, truncated or malformed. Every function is a pure transform
//! between bytes and packet values: nothing here reads, writes or buffers.

#![allow(non_snake_case)]
#![allow(non_camel_case_types)]

pub mod header;
pub mod laws;
pub mod packet;
pub mod protocol_helper;
pub mod request;
pub mod response;
pub mod text;
pub mod wire;
