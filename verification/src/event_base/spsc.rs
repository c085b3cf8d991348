//! Single-producer single-consumer endpoints, asynchronous and blocking.
//! None of them can be cloned.

use crate::event_base::channel::{
    Bounded,
    spsc_capacity_supported,
    SpscAsyncReceiver, SpscAsyncSender, SpscBlockingReceiver, SpscBlockingSender,
    spsc_async_rx_is_disconnected, spsc_async_try_recv, spsc_async_try_send, spsc_async_tx_is_disconnected,
    spsc_blocking_recv, spsc_blocking_rx_is_disconnected, spsc_blocking_send, spsc_blocking_try_recv,
    spsc_blocking_try_send, spsc_blocking_tx_is_disconnected, spsc_bounded_async, spsc_rx_into_blocking,
    spsc_tx_into_blocking,
};
use crate::event_base::error::{EventBaseError, EventBaseResult};
use crate::event_base::support::{
    handle_recv_result, handle_send_result, handle_try_recv_result, handle_try_send_result, try_recv_result_ok,
    try_send_result_ok,
};
use crate::event_base::DEFAULT_CAPACITY;
use vstd::prelude::*;

verus! {

/// Asynchronous sender of a single-producer channel.
#[verifier::reject_recursive_types(T)]
pub struct SpscTx<T: Send + 'static> {
    inner: Bounded<SpscAsyncSender<T>>,
    name: &'static str,
}

/// Asynchronous receiver of a single-consumer channel.
#[verifier::reject_recursive_types(T)]
pub struct SpscRx<T: Send + 'static> {
    inner: Bounded<SpscAsyncReceiver<T>>,
    name: &'static str,
}

/// Blocking sender of a single-producer channel.
#[verifier::reject_recursive_types(T)]
pub struct SyncSpscTx<T: Send + 'static> {
    inner: Bounded<SpscBlockingSender<T>>,
    name: &'static str,
}

/// Blocking receiver of a single-consumer channel.
#[verifier::reject_recursive_types(T)]
pub struct SyncSpscRx<T: Send + 'static> {
    inner: Bounded<SpscBlockingReceiver<T>>,
    name: &'static str,
}

/// Makes a bounded single-producer channel of [`DEFAULT_CAPACITY`] messages whose
/// endpoints carry `name`.
pub fn new_spsc_bounded_default<T: Send + 'static>(name: &'static str) -> (r: EventBaseResult<(SpscTx<T>, SpscRx<T>)>)
    ensures
        r matches Ok((tx, rx)) && tx.spec_name() == name && rx.spec_name() == name
            && tx.spec_capacity() == DEFAULT_CAPACITY && rx.spec_capacity() == DEFAULT_CAPACITY,
{
    new_spsc_bounded(name, DEFAULT_CAPACITY)
}

/// Makes a bounded single-producer channel of `capacity` messages whose endpoints
/// carry `name`. A capacity of zero is refused; crossfire panics on a capacity it
/// does not support, so such a capacity is not accepted.
pub fn new_spsc_bounded<T: Send + 'static>(name: &'static str, capacity: usize) -> (r: EventBaseResult<(SpscTx<T>, SpscRx<T>)>)
    requires
        spsc_capacity_supported(capacity),
    ensures
        capacity == 0 <==> r is Err,
        r matches Err(e) ==> e == (EventBaseError::InvalidCapacity { name, capacity }),
        r matches Ok((tx, rx)) ==> tx.spec_name() == name && rx.spec_name() == name
            && tx.spec_capacity() == capacity && rx.spec_capacity() == capacity,
{
    if capacity == 0 {
        return Err(EventBaseError::InvalidCapacity { name, capacity });
    }
    let (tx, rx) = spsc_bounded_async::<T>(capacity);
    Ok((SpscTx { inner: tx, name }, SpscRx { inner: rx, name }))
}

impl<T: Send + 'static> SpscTx<T> {
    /// The name the channel was created with.
    pub closed spec fn spec_name(&self) -> &'static str {
        self.name
    }

    /// Returns the name the channel was created with.
    pub fn name(&self) -> (n: &'static str)
        ensures
            n == self.spec_name(),
    {
        self.name
    }

    /// The number of messages the channel was made to hold.
    pub closed spec fn spec_capacity(&self) -> usize {
        self.inner.spec_capacity()
    }

    /// Returns the number of messages the channel was made to hold.
    pub fn capacity(&self) -> (c: usize)
        ensures
            c == self.spec_capacity(),
    {
        self.inner.capacity()
    }

    /// The crossfire sender this endpoint holds.
    pub closed spec fn spec_inner(&self) -> SpscAsyncSender<T> {
        self.inner.spec_handle()
    }

    /// The crossfire sender, for the asynchronous send.
    pub fn inner(&self) -> (handle: &SpscAsyncSender<T>)
        ensures
            *handle == self.spec_inner(),
    {
        self.inner.handle()
    }

    /// Tries to queue `message` without waiting: `Ok(None)` when queued, the message
    /// back when the channel is full, an error when the receiver is gone.
    pub fn try_send(&self, message: T) -> (r: EventBaseResult<Option<T>>)
        ensures
            try_send_result_ok(r, message, self.spec_name()),
    {
        handle_try_send_result(spsc_async_try_send(self.inner.handle(), message), self.name)
    }

    /// Returns whether the receiver is gone.
    pub fn is_disconnected(&self) -> bool {
        spsc_async_tx_is_disconnected(self.inner.handle())
    }

    /// Turns this sender into the blocking sender of the same channel.
    pub fn into_sync_tx(self) -> (tx: SyncSpscTx<T>)
        ensures
            tx.spec_name() == self.spec_name(),
            tx.spec_capacity() == self.spec_capacity(),
    {
        let name = self.name;
        SyncSpscTx { inner: spsc_tx_into_blocking(self.inner), name }
    }
}

impl<T: Send + 'static> SpscRx<T> {
    /// The name the channel was created with.
    pub closed spec fn spec_name(&self) -> &'static str {
        self.name
    }

    /// Returns the name the channel was created with.
    pub fn name(&self) -> (n: &'static str)
        ensures
            n == self.spec_name(),
    {
        self.name
    }

    /// The number of messages the channel was made to hold.
    pub closed spec fn spec_capacity(&self) -> usize {
        self.inner.spec_capacity()
    }

    /// Returns the number of messages the channel was made to hold.
    pub fn capacity(&self) -> (c: usize)
        ensures
            c == self.spec_capacity(),
    {
        self.inner.capacity()
    }

    /// The crossfire receiver this endpoint holds.
    pub closed spec fn spec_inner(&self) -> SpscAsyncReceiver<T> {
        self.inner.spec_handle()
    }

    /// The crossfire receiver, for the asynchronous receive.
    pub fn inner(&self) -> (handle: &SpscAsyncReceiver<T>)
        ensures
            *handle == self.spec_inner(),
    {
        self.inner.handle()
    }

    /// Takes a queued message without waiting: `Ok(None)` while the channel is
    /// empty, an error once the sender is gone.
    pub fn try_recv(&self) -> (r: EventBaseResult<Option<T>>)
        ensures
            try_recv_result_ok(r, self.spec_name()),
    {
        handle_try_recv_result(spsc_async_try_recv(self.inner.handle()), self.name)
    }

    /// Returns whether the sender is gone.
    pub fn is_disconnected(&self) -> bool {
        spsc_async_rx_is_disconnected(self.inner.handle())
    }

    /// Turns this receiver into the blocking receiver of the same channel.
    pub fn into_sync_rx(self) -> (rx: SyncSpscRx<T>)
        ensures
            rx.spec_name() == self.spec_name(),
            rx.spec_capacity() == self.spec_capacity(),
    {
        let name = self.name;
        SyncSpscRx { inner: spsc_rx_into_blocking(self.inner), name }
    }
}

impl<T: Send + 'static> SyncSpscTx<T> {
    /// The name the channel was created with.
    pub closed spec fn spec_name(&self) -> &'static str {
        self.name
    }

    /// Returns the name the channel was created with.
    pub fn name(&self) -> (n: &'static str)
        ensures
            n == self.spec_name(),
    {
        self.name
    }

    /// The number of messages the channel was made to hold.
    pub closed spec fn spec_capacity(&self) -> usize {
        self.inner.spec_capacity()
    }

    /// Returns the number of messages the channel was made to hold.
    pub fn capacity(&self) -> (c: usize)
        ensures
            c == self.spec_capacity(),
    {
        self.inner.capacity()
    }

    /// Queues `message`, blocking the thread while the channel is full. An error
    /// when the receiver is gone; the message is then dropped.
    pub fn send_sync(&self, message: T) -> (r: EventBaseResult<()>)
        ensures
            r matches Err(e) ==> e == (EventBaseError::TxDisconnected { name: self.spec_name() }),
    {
        handle_send_result(spsc_blocking_send(self.inner.handle(), message), self.name)
    }

    /// Tries to queue `message` without waiting: `Ok(None)` when queued, the message
    /// back when the channel is full, an error when the receiver is gone.
    pub fn try_send(&self, message: T) -> (r: EventBaseResult<Option<T>>)
        ensures
            try_send_result_ok(r, message, self.spec_name()),
    {
        handle_try_send_result(spsc_blocking_try_send(self.inner.handle(), message), self.name)
    }

    /// Returns whether the receiver is gone.
    pub fn is_disconnected(&self) -> bool {
        spsc_blocking_tx_is_disconnected(self.inner.handle())
    }
}

impl<T: Send + 'static> SyncSpscRx<T> {
    /// The name the channel was created with.
    pub closed spec fn spec_name(&self) -> &'static str {
        self.name
    }

    /// Returns the name the channel was created with.
    pub fn name(&self) -> (n: &'static str)
        ensures
            n == self.spec_name(),
    {
        self.name
    }

    /// The number of messages the channel was made to hold.
    pub closed spec fn spec_capacity(&self) -> usize {
        self.inner.spec_capacity()
    }

    /// Returns the number of messages the channel was made to hold.
    pub fn capacity(&self) -> (c: usize)
        ensures
            c == self.spec_capacity(),
    {
        self.inner.capacity()
    }

    /// Takes the next message, blocking the thread until one is queued. An error
    /// once the sender is gone and nothing is queued.
    pub fn recv_sync(&self) -> (r: EventBaseResult<T>)
        ensures
            r matches Err(e) ==> e == (EventBaseError::RxDisconnected { name: self.spec_name() }),
    {
        handle_recv_result(spsc_blocking_recv(self.inner.handle()), self.name)
    }

    /// Takes a queued message without waiting: `Ok(None)` while the channel is
    /// empty, an error once the sender is gone.
    pub fn try_recv(&self) -> (r: EventBaseResult<Option<T>>)
        ensures
            try_recv_result_ok(r, self.spec_name()),
    {
        handle_try_recv_result(spsc_blocking_try_recv(self.inner.handle()), self.name)
    }

    /// Returns whether the sender is gone.
    pub fn is_disconnected(&self) -> bool {
        spsc_blocking_rx_is_disconnected(self.inner.handle())
    }
}

} // verus!
