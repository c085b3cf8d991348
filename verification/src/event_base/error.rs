//! The error shared by every channel endpoint.

use vstd::prelude::*;

verus! {

/// Why a channel could not be made or used. Each variant carries the name the
/// channel was created with.
#[derive(Debug, Clone, Copy)]
pub enum EventBaseError {
    /// A bounded channel was asked for with a capacity of zero.
    InvalidCapacity { name: &'static str, capacity: usize },
    /// Every receiver of the channel is gone.
    TxDisconnected { name: &'static str },
    /// Every sender of the channel is gone and nothing is queued.
    RxDisconnected { name: &'static str },
}

/// The result of a channel operation.
pub type EventBaseResult<T> = Result<T, EventBaseError>;

impl EventBaseError {
    /// Whether the error reports a peer that went away (as opposed to a bad setup).
    pub open spec fn spec_is_disconnected(self) -> bool {
        self is TxDisconnected || self is RxDisconnected
    }

    /// Returns whether the error reports a peer that went away.
    pub fn is_disconnected(&self) -> (b: bool)
        ensures
            b == self.spec_is_disconnected(),
    {
        match self {
            EventBaseError::InvalidCapacity { .. } => false,
            EventBaseError::TxDisconnected { .. } => true,
            EventBaseError::RxDisconnected { .. } => true,
        }
    }

    /// The name of the channel the error is about.
    pub open spec fn spec_channel_name(self) -> &'static str {
        match self {
            EventBaseError::InvalidCapacity { name, .. } => name,
            EventBaseError::TxDisconnected { name } => name,
            EventBaseError::RxDisconnected { name } => name,
        }
    }

    /// Returns the name of the channel the error is about.
    pub fn channel_name(&self) -> (n: &'static str)
        ensures
            n == self.spec_channel_name(),
    {
        match self {
            EventBaseError::InvalidCapacity { name, .. } => name,
            EventBaseError::TxDisconnected { name } => name,
            EventBaseError::RxDisconnected { name } => name,
        }
    }
}

} // verus!
