//! Multi-producer single-consumer endpoints. The sender can be cloned; the
//! receiver is unique.

use crate::event_base::channel::{
    Bounded,
    mpsc_capacity_supported,
    mpsc_bounded_async, mpsc_rx_is_disconnected, mpsc_try_recv, mpsc_try_send, mpsc_tx_clone,
    mpsc_tx_is_disconnected, MpscAsyncReceiver, MpscAsyncSender,
};
use crate::event_base::error::{EventBaseError, EventBaseResult};
use crate::event_base::support::{handle_try_recv_result, handle_try_send_result, try_recv_result_ok, try_send_result_ok};
use crate::event_base::DEFAULT_CAPACITY;
use vstd::prelude::*;

verus! {

/// Sender of a multi-producer channel.
#[verifier::reject_recursive_types(T)]
pub struct MpscTx<T: Send + 'static> {
    inner: Bounded<MpscAsyncSender<T>>,
    name: &'static str,
}

/// The receiver of a single-consumer channel.
#[verifier::reject_recursive_types(T)]
pub struct MpscRx<T: Send + 'static> {
    inner: Bounded<MpscAsyncReceiver<T>>,
    name: &'static str,
}

/// Makes a bounded multi-producer single-consumer channel of [`DEFAULT_CAPACITY`]
/// messages whose endpoints carry `name`.
pub fn new_mpsc_bounded_default<T: Send + 'static>(name: &'static str) -> (r: EventBaseResult<(MpscTx<T>, MpscRx<T>)>)
    ensures
        r matches Ok((tx, rx)) && tx.spec_name() == name && rx.spec_name() == name
            && tx.spec_capacity() == DEFAULT_CAPACITY && rx.spec_capacity() == DEFAULT_CAPACITY,
{
    new_mpsc_bounded(name, DEFAULT_CAPACITY)
}

/// Makes a bounded multi-producer single-consumer channel of `capacity` messages
/// whose endpoints carry `name`. A capacity of zero is refused; crossfire panics on
/// a capacity it does not support, so such a capacity is not accepted.
pub fn new_mpsc_bounded<T: Send + 'static>(name: &'static str, capacity: usize) -> (r: EventBaseResult<(MpscTx<T>, MpscRx<T>)>)
    requires
        mpsc_capacity_supported(capacity),
    ensures
        capacity == 0 <==> r is Err,
        r matches Err(e) ==> e == (EventBaseError::InvalidCapacity { name, capacity }),
        r matches Ok((tx, rx)) ==> tx.spec_name() == name && rx.spec_name() == name
            && tx.spec_capacity() == capacity && rx.spec_capacity() == capacity,
{
    if capacity == 0 {
        return Err(EventBaseError::InvalidCapacity { name, capacity });
    }
    let (tx, rx) = mpsc_bounded_async::<T>(capacity);
    Ok((MpscTx { inner: tx, name }, MpscRx { inner: rx, name }))
}

impl<T: Send + 'static> Clone for MpscTx<T> {
    /// Another sender of the same channel, under the same name.
    fn clone(&self) -> (tx: Self)
        ensures
            tx.spec_name() == self.spec_name(),
            tx.spec_capacity() == self.spec_capacity(),
    {
        MpscTx { inner: mpsc_tx_clone(&self.inner), name: self.name }
    }
}

impl<T: Send + 'static> MpscTx<T> {
    /// The name the channel was created with.
    pub closed spec fn spec_name(&self) -> &'static str {
        self.name
    }

    /// Returns the name the channel was created with.
    pub fn name(&self) -> (n: &'static str)
        ensures
            n == self.spec_name(),
    {
        self.name
    }

    /// The number of messages the channel was made to hold.
    pub closed spec fn spec_capacity(&self) -> usize {
        self.inner.spec_capacity()
    }

    /// Returns the number of messages the channel was made to hold.
    pub fn capacity(&self) -> (c: usize)
        ensures
            c == self.spec_capacity(),
    {
        self.inner.capacity()
    }

    /// The crossfire sender this endpoint holds.
    pub closed spec fn spec_inner(&self) -> MpscAsyncSender<T> {
        self.inner.spec_handle()
    }

    /// The crossfire sender, for the asynchronous send.
    pub fn inner(&self) -> (handle: &MpscAsyncSender<T>)
        ensures
            *handle == self.spec_inner(),
    {
        self.inner.handle()
    }

    /// Returns whether the receiver is gone.
    pub fn is_disconnected(&self) -> bool {
        mpsc_tx_is_disconnected(self.inner.handle())
    }

    /// Tries to queue `message` without waiting: `Ok(None)` when queued, the message
    /// back when the channel is full, an error when the receiver is gone.
    pub fn try_send(&self, message: T) -> (r: EventBaseResult<Option<T>>)
        ensures
            try_send_result_ok(r, message, self.spec_name()),
    {
        handle_try_send_result(mpsc_try_send(self.inner.handle(), message), self.name)
    }
}

impl<T: Send + 'static> MpscRx<T> {
    /// The name the channel was created with.
    pub closed spec fn spec_name(&self) -> &'static str {
        self.name
    }

    /// Returns the name the channel was created with.
    pub fn name(&self) -> (n: &'static str)
        ensures
            n == self.spec_name(),
    {
        self.name
    }

    /// The number of messages the channel was made to hold.
    pub closed spec fn spec_capacity(&self) -> usize {
        self.inner.spec_capacity()
    }

    /// Returns the number of messages the channel was made to hold.
    pub fn capacity(&self) -> (c: usize)
        ensures
            c == self.spec_capacity(),
    {
        self.inner.capacity()
    }

    /// The crossfire receiver this endpoint holds.
    pub closed spec fn spec_inner(&self) -> MpscAsyncReceiver<T> {
        self.inner.spec_handle()
    }

    /// The crossfire receiver, for the asynchronous receive.
    pub fn inner(&self) -> (handle: &MpscAsyncReceiver<T>)
        ensures
            *handle == self.spec_inner(),
    {
        self.inner.handle()
    }

    /// Returns whether every sender is gone.
    pub fn is_disconnected(&self) -> bool {
        mpsc_rx_is_disconnected(self.inner.handle())
    }

    /// Takes a queued message without waiting: `Ok(None)` while the channel is
    /// empty, an error once every sender is gone.
    pub fn try_recv(&self) -> (r: EventBaseResult<Option<T>>)
        ensures
            try_recv_result_ok(r, self.spec_name()),
    {
        handle_try_recv_result(mpsc_try_recv(self.inner.handle()), self.name)
    }
}

} // verus!
