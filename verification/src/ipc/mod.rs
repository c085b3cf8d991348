//! Inter-process messaging: framing, correlation ids and the call table.

pub mod socket;
