//! Errors of the AI job queue, as its users see them.

use vstd::prelude::*;
use vstd::string::StringExecFns;

verus! {

/// Why the AI job queue could not serve a request.
#[derive(Debug, Clone, Copy, PartialEq, Eq, Structural)]
pub enum AijobError {
    /// The queue could not be set up.
    QueueUnavailable,
    /// The other side of the queue is gone.
    QueueClosed,
}

/// The result of an AI job queue operation.
pub type AijobResult<T> = Result<T, AijobError>;

/// Alias kept for callers that spell the name with a capital J.
pub type AiJobError = AijobError;

/// Alias kept for callers that spell the name with a capital J.
pub type AiJobResult<T> = AijobResult<T>;

impl AijobError {
    /// The message shown for the error.
    pub fn to_string(&self) -> (s: String)
        ensures
            *self == AijobError::QueueUnavailable ==> s@ == "AI job queue is unavailable"@,
            *self == AijobError::QueueClosed ==> s@ == "AI job queue is closed"@,
    {
        match self {
            AijobError::QueueUnavailable => String::from_str("AI job queue is unavailable"),
            AijobError::QueueClosed => String::from_str("AI job queue is closed"),
        }
    }
}

} // verus!
