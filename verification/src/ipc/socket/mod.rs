//! Length-delimited frames and request/response correlation over one connection.
//! The byte stream itself is driven by the caller.

pub mod client_transport;
pub mod envelope;
pub mod pending;
pub mod wire;
