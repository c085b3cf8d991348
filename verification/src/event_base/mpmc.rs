//! Multi-producer multi-consumer endpoints. Both can be cloned; a clone is another
//! handle on the same channel, not a copy of the queued messages.

use crate::event_base::channel::{
    Bounded,
    mpmc_capacity_supported,
    mpmc_blocking_send, mpmc_bounded_async, mpmc_rx_clone, mpmc_rx_is_disconnected, mpmc_try_recv,
    mpmc_try_send, mpmc_tx_clone, mpmc_tx_into_blocking, mpmc_tx_is_disconnected, MpmcAsyncReceiver,
    MpmcAsyncSender,
};
use crate::event_base::error::{EventBaseError, EventBaseResult};
use crate::event_base::support::{
    handle_send_result, handle_try_recv_result, send_sync_step, SendSyncStep, handle_try_send_result, try_recv_result_ok, try_send_result_ok,
};
use crate::event_base::DEFAULT_CAPACITY;
use vstd::prelude::*;

verus! {

/// Sender of a multi-producer channel.
#[verifier::reject_recursive_types(T)]
pub struct MpmcTx<T: Send + 'static> {
    inner: Bounded<MpmcAsyncSender<T>>,
    name: &'static str,
}

/// Receiver of a multi-consumer channel.
#[verifier::reject_recursive_types(T)]
pub struct MpmcRx<T: Send + 'static> {
    inner: Bounded<MpmcAsyncReceiver<T>>,
    name: &'static str,
}

/// Makes a bounded multi-producer multi-consumer channel of [`DEFAULT_CAPACITY`]
/// messages whose endpoints carry `name`.
pub fn new_mpmc_bounded_default<T: Send + 'static>(name: &'static str) -> (r: EventBaseResult<(MpmcTx<T>, MpmcRx<T>)>)
    ensures
        r matches Ok((tx, rx)) && tx.spec_name() == name && rx.spec_name() == name
            && tx.spec_capacity() == DEFAULT_CAPACITY && rx.spec_capacity() == DEFAULT_CAPACITY,
{
    new_mpmc_bounded(name, DEFAULT_CAPACITY)
}

/// Makes a bounded multi-producer multi-consumer channel of `capacity` messages
/// whose endpoints carry `name`. A capacity of zero is refused; crossfire panics on
/// a capacity it does not support, so such a capacity is not accepted.
pub fn new_mpmc_bounded<T: Send + 'static>(name: &'static str, capacity: usize) -> (r: EventBaseResult<(MpmcTx<T>, MpmcRx<T>)>)
    requires
        mpmc_capacity_supported(capacity),
    ensures
        capacity == 0 <==> r is Err,
        r matches Err(e) ==> e == (EventBaseError::InvalidCapacity { name, capacity }),
        r matches Ok((tx, rx)) ==> tx.spec_name() == name && rx.spec_name() == name
            && tx.spec_capacity() == capacity && rx.spec_capacity() == capacity,
{
    if capacity == 0 {
        return Err(EventBaseError::InvalidCapacity { name, capacity });
    }
    let (tx, rx) = mpmc_bounded_async::<T>(capacity);
    Ok((MpmcTx { inner: tx, name }, MpmcRx { inner: rx, name }))
}

impl<T: Send + 'static> Clone for MpmcTx<T> {
    /// Another sender of the same channel, under the same name.
    fn clone(&self) -> (tx: Self)
        ensures
            tx.spec_name() == self.spec_name(),
            tx.spec_capacity() == self.spec_capacity(),
    {
        MpmcTx { inner: mpmc_tx_clone(&self.inner), name: self.name }
    }
}

impl<T: Send + 'static> Clone for MpmcRx<T> {
    /// Another receiver of the same channel, under the same name.
    fn clone(&self) -> (rx: Self)
        ensures
            rx.spec_name() == self.spec_name(),
            rx.spec_capacity() == self.spec_capacity(),
    {
        MpmcRx { inner: mpmc_rx_clone(&self.inner), name: self.name }
    }
}

impl<T: Send + 'static> MpmcTx<T> {
    /// The name the channel was created with.
    pub closed spec fn spec_name(&self) -> &'static str {
        self.name
    }

    /// Returns the name the channel was created with.
    pub fn name(&self) -> (n: &'static str)
        ensures
            n == self.spec_name(),
    {
        self.name
    }

    /// The number of messages the channel was made to hold.
    pub closed spec fn spec_capacity(&self) -> usize {
        self.inner.spec_capacity()
    }

    /// Returns the number of messages the channel was made to hold.
    pub fn capacity(&self) -> (c: usize)
        ensures
            c == self.spec_capacity(),
    {
        self.inner.capacity()
    }

    /// The crossfire sender this endpoint holds.
    pub closed spec fn spec_inner(&self) -> MpmcAsyncSender<T> {
        self.inner.spec_handle()
    }

    /// The crossfire sender, for the asynchronous send.
    pub fn inner(&self) -> (handle: &MpmcAsyncSender<T>)
        ensures
            *handle == self.spec_inner(),
    {
        self.inner.handle()
    }

    /// Returns whether every receiver is gone.
    pub fn is_disconnected(&self) -> bool {
        mpmc_tx_is_disconnected(self.inner.handle())
    }

    /// Tries to queue `message` without waiting: `Ok(None)` when queued, the message
    /// back when the channel is full, an error when every receiver is gone.
    pub fn try_send(&self, message: T) -> (r: EventBaseResult<Option<T>>)
        ensures
            try_send_result_ok(r, message, self.spec_name()),
    {
        handle_try_send_result(mpmc_try_send(self.inner.handle(), message), self.name)
    }

    /// Queues `message` from a thread that is not driving the channel asynchronously.
    /// A free slot is taken at once; on a full channel the message goes through a
    /// blocking clone of this sender, which leaves this sender usable asynchronously.
    /// An error when every receiver is gone; the message is then dropped.
    pub fn send_sync(&self, message: T) -> (r: EventBaseResult<()>)
        ensures
            r matches Err(e) ==> e == (EventBaseError::TxDisconnected { name: self.spec_name() }),
    {
        let attempt = mpmc_try_send(self.inner.handle(), message);
        match send_sync_step(attempt, self.name) {
            SendSyncStep::Finished(r) => r,
            SendSyncStep::Block(unsent) => {
                proof {
                    assert(unsent == message);
                }
                let blocking = mpmc_tx_into_blocking(mpmc_tx_clone(&self.inner).into_handle());
                handle_send_result(mpmc_blocking_send(&blocking, unsent), self.name)
            },
        }
    }
}

impl<T: Send + 'static> MpmcRx<T> {
    /// The name the channel was created with.
    pub closed spec fn spec_name(&self) -> &'static str {
        self.name
    }

    /// Returns the name the channel was created with.
    pub fn name(&self) -> (n: &'static str)
        ensures
            n == self.spec_name(),
    {
        self.name
    }

    /// The number of messages the channel was made to hold.
    pub closed spec fn spec_capacity(&self) -> usize {
        self.inner.spec_capacity()
    }

    /// Returns the number of messages the channel was made to hold.
    pub fn capacity(&self) -> (c: usize)
        ensures
            c == self.spec_capacity(),
    {
        self.inner.capacity()
    }

    /// The crossfire receiver this endpoint holds.
    pub closed spec fn spec_inner(&self) -> MpmcAsyncReceiver<T> {
        self.inner.spec_handle()
    }

    /// The crossfire receiver, for the asynchronous receive.
    pub fn inner(&self) -> (handle: &MpmcAsyncReceiver<T>)
        ensures
            *handle == self.spec_inner(),
    {
        self.inner.handle()
    }

    /// Returns whether every sender is gone.
    pub fn is_disconnected(&self) -> bool {
        mpmc_rx_is_disconnected(self.inner.handle())
    }

    /// Takes a queued message without waiting: `Ok(None)` while the channel is
    /// empty, an error once every sender is gone.
    pub fn try_recv(&self) -> (r: EventBaseResult<Option<T>>)
        ensures
            try_recv_result_ok(r, self.spec_name()),
    {
        handle_try_recv_result(mpmc_try_recv(self.inner.handle()), self.name)
    }
}

} // verus!
