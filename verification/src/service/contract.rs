//! Application payloads carried inside the transport envelope.

use vstd::prelude::*;

verus! {

/// Operations exposed by the service.
#[derive(Debug, Clone)]
pub enum Call {
    Add(BiParams),
    Multiply(BiParams),
    CounterIncr(CounterIncrParams),
    CounterGet,
}

/// Two operand parameters, shared by `Add` and `Multiply`.
#[derive(Debug, Clone, Copy)]
pub struct BiParams {
    pub a: i64,
    pub b: i64,
}

/// Parameters for incrementing the shared counter.
#[derive(Debug, Clone, Copy)]
pub struct CounterIncrParams {
    pub by: i64,
}

/// Outcome of one call, carried back to the caller as data rather than a transport error.
#[derive(Debug, Clone)]
pub enum CallResult {
    Value(i64),
    Error(String),
}

} // verus!
