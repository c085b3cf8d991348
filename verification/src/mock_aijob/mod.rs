//! AI job queues over a multi-producer multi-consumer channel.

pub mod ai_queue;
pub mod aijob_error;
pub mod aijob_queue;
