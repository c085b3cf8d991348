//! Named event channels with one error type, and length-delimited IPC framing
//! with request/response correlation, plus the demo services built on them.

pub mod error;
pub mod event_base;
pub mod ipc;
pub mod mock_aijob;
pub mod mock_tui;
pub mod service;
pub mod text;
