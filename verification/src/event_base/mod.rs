//! Named channel endpoints over crossfire, with one error type for every channel.

pub mod channel;
pub mod error;
pub mod mpmc;
pub mod mpsc;
pub mod spsc;
pub mod support;

use vstd::prelude::*;

verus! {

/// Capacity of the channels made by the `*_bounded_default` factories.
pub const DEFAULT_CAPACITY: usize = 64;

} // verus!
