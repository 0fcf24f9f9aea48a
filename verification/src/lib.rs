//! Framing codec for TLS records: the outer envelope of content type,
//! protocol version, length and opaque fragment, with a stepwise parser
//! over untrusted bytes and the matching serialiser.

pub mod constants;
pub mod fsm;
pub mod record_layer;
pub mod hex_encoder;
