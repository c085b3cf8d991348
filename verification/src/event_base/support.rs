//! How the outcome of a channel call becomes the library's result. Shared by every
//! endpoint, blocking or asynchronous.

use crate::event_base::channel::{TryRecvOutcome, TrySendOutcome};
use crate::event_base::error::{EventBaseError, EventBaseResult};
use vstd::prelude::*;

verus! {

/// The result of a completed send: `Err(m)` means every receiver was gone and
/// `m` was not delivered.
pub fn handle_send_result<T>(outcome: Result<(), T>, name: &'static str) -> (r: EventBaseResult<()>)
    ensures
        outcome is Ok <==> r is Ok,
        outcome is Err ==> r == Err::<(), EventBaseError>(EventBaseError::TxDisconnected { name }),
{
    match outcome {
        Ok(()) => Ok(()),
        Err(_) => Err(EventBaseError::TxDisconnected { name }),
    }
}

/// The result of a non-blocking send: `Ok(None)` when queued, `Ok(Some(m))` with
/// the message handed back when the channel is full, and an error when every
/// receiver is gone (the message is dropped).
pub fn handle_try_send_result<T>(outcome: TrySendOutcome<T>, name: &'static str) -> (r: EventBaseResult<Option<T>>)
    ensures
        match outcome {
            TrySendOutcome::Sent => r == Ok::<Option<T>, EventBaseError>(None),
            TrySendOutcome::Full(m) => r == Ok::<Option<T>, EventBaseError>(Some(m)),
            TrySendOutcome::Disconnected(_) => r == Err::<Option<T>, EventBaseError>(
                EventBaseError::TxDisconnected { name },
            ),
        },
{
    match outcome {
        TrySendOutcome::Sent => Ok(None),
        TrySendOutcome::Full(m) => Ok(Some(m)),
        TrySendOutcome::Disconnected(_) => Err(EventBaseError::TxDisconnected { name }),
    }
}

/// The result of a completed receive: `None` means every sender was gone and
/// nothing was queued.
pub fn handle_recv_result<T>(outcome: Option<T>, name: &'static str) -> (r: EventBaseResult<T>)
    ensures
        match outcome {
            Some(v) => r == Ok::<T, EventBaseError>(v),
            None => r == Err::<T, EventBaseError>(EventBaseError::RxDisconnected { name }),
        },
{
    match outcome {
        Some(v) => Ok(v),
        None => Err(EventBaseError::RxDisconnected { name }),
    }
}

/// The result of a non-blocking receive: the message, `Ok(None)` while the channel
/// is empty, or an error once every sender is gone.
pub fn handle_try_recv_result<T>(outcome: TryRecvOutcome<T>, name: &'static str) -> (r: EventBaseResult<Option<T>>)
    ensures
        match outcome {
            TryRecvOutcome::Received(v) => r == Ok::<Option<T>, EventBaseError>(Some(v)),
            TryRecvOutcome::Empty => r == Ok::<Option<T>, EventBaseError>(None),
            TryRecvOutcome::Disconnected => r == Err::<Option<T>, EventBaseError>(
                EventBaseError::RxDisconnected { name },
            ),
        },
{
    match outcome {
        TryRecvOutcome::Received(v) => Ok(Some(v)),
        TryRecvOutcome::Empty => Ok(None),
        TryRecvOutcome::Disconnected => Err(EventBaseError::RxDisconnected { name }),
    }
}

/// What a send from a blocking thread does after its non-blocking attempt.
pub enum SendSyncStep<T> {
    /// Nothing more: this is the result.
    Finished(EventBaseResult<()>),
    /// The channel was full: send this message, the very one the attempt handed
    /// back, through a blocking sender of the same channel.
    Block(T),
}

/// Decides the rest of a send from a blocking thread from what its non-blocking
/// attempt reported: done when queued, a blocking send of the same message when
/// the channel is full, and the disconnection of this channel when every receiver
/// is gone.
pub fn send_sync_step<T>(attempt: TrySendOutcome<T>, name: &'static str) -> (step: SendSyncStep<T>)
    ensures
        match attempt {
            TrySendOutcome::Sent => step == SendSyncStep::<T>::Finished(Ok(())),
            TrySendOutcome::Full(m) => step == SendSyncStep::<T>::Block(m),
            TrySendOutcome::Disconnected(_) => step == SendSyncStep::<T>::Finished(
                Err(EventBaseError::TxDisconnected { name }),
            ),
        },
{
    match attempt {
        TrySendOutcome::Sent => SendSyncStep::Finished(Ok(())),
        TrySendOutcome::Full(m) => SendSyncStep::Block(m),
        TrySendOutcome::Disconnected(_) => SendSyncStep::Finished(Err(EventBaseError::TxDisconnected { name })),
    }
}

/// What the result of a non-blocking send can be, whatever the channel did:
/// nothing, the very message handed back, or the disconnection of this channel.
pub open spec fn try_send_result_ok<T>(r: EventBaseResult<Option<T>>, message: T, name: &'static str) -> bool {
    match r {
        Ok(None) => true,
        Ok(Some(m)) => m == message,
        Err(e) => e == EventBaseError::TxDisconnected { name },
    }
}

/// What the result of a non-blocking receive can be, whatever the channel did:
/// a message, nothing yet, or the disconnection of this channel.
pub open spec fn try_recv_result_ok<T>(r: EventBaseResult<Option<T>>, name: &'static str) -> bool {
    r matches Err(e) ==> e == EventBaseError::RxDisconnected { name }
}

} // verus!
