//! Application layer: business protocol, service logic, and the client's view of
//! a reply.
//!
//! Nothing here knows about framing or correlation ids, those belong to the
//! `ipc::socket` transport.

pub mod client;
pub mod contract;
pub mod server;
