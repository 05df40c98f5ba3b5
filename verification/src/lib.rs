//! Codec for the 4-octet common header shared by all RTCP packets
//! (RFC 3550 sections 6.4-6.7, RFC 4585): a bit-exact, validating
//! translation between the wire bytes and a structured `Header` value.

pub mod errors;
pub mod header;

pub use errors::Error;
pub use header::{Header, PacketType, HEADER_LENGTH};
