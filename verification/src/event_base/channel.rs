//! The crossfire channel handles this library builds on, and the calls it makes
//! into them. Each call returns a plain outcome of this module; which outcome comes
//! back depends on what the other endpoints of the channel did, so the contracts
//! below state only what holds of every outcome.

use crossfire::{mpmc, mpsc, spsc, AsyncRx, AsyncTx, MAsyncRx, MAsyncTx, MTx, Rx, Tx};
use vstd::prelude::*;

verus! {

/// Holds the asynchronous sender of a bounded single-producer crossfire channel.
/// Its contents are opaque to proofs; the calls below are the only way the library uses it.
#[verifier::external_body]
#[verifier::reject_recursive_types(T)]
pub struct SpscAsyncSender<T: Send + 'static> {
    pub handle: AsyncTx<spsc::Array<T>>,
}

/// Holds the asynchronous receiver of a bounded single-consumer crossfire channel.
#[verifier::external_body]
#[verifier::reject_recursive_types(T)]
pub struct SpscAsyncReceiver<T: Send + 'static> {
    pub handle: AsyncRx<spsc::Array<T>>,
}

/// Holds the blocking sender of a bounded single-producer crossfire channel.
#[verifier::external_body]
#[verifier::reject_recursive_types(T)]
pub struct SpscBlockingSender<T: Send + 'static> {
    pub handle: Tx<spsc::Array<T>>,
}

/// Holds the blocking receiver of a bounded single-consumer crossfire channel.
#[verifier::external_body]
#[verifier::reject_recursive_types(T)]
pub struct SpscBlockingReceiver<T: Send + 'static> {
    pub handle: Rx<spsc::Array<T>>,
}

/// Holds a cloneable asynchronous sender of a bounded multi-consumer crossfire channel.
#[verifier::external_body]
#[verifier::reject_recursive_types(T)]
pub struct MpmcAsyncSender<T: Send + 'static> {
    pub handle: MAsyncTx<mpmc::Array<T>>,
}

/// Holds a cloneable asynchronous receiver of a bounded multi-consumer crossfire channel.
#[verifier::external_body]
#[verifier::reject_recursive_types(T)]
pub struct MpmcAsyncReceiver<T: Send + 'static> {
    pub handle: MAsyncRx<mpmc::Array<T>>,
}

/// Holds a cloneable blocking sender of a bounded multi-consumer crossfire channel.
#[verifier::external_body]
#[verifier::reject_recursive_types(T)]
pub struct MpmcBlockingSender<T: Send + 'static> {
    pub handle: MTx<mpmc::Array<T>>,
}

/// Holds a cloneable asynchronous sender of a bounded single-consumer crossfire channel.
#[verifier::external_body]
#[verifier::reject_recursive_types(T)]
pub struct MpscAsyncSender<T: Send + 'static> {
    pub handle: MAsyncTx<mpsc::Array<T>>,
}

/// Holds the asynchronous receiver of a bounded multi-producer crossfire channel.
#[verifier::external_body]
#[verifier::reject_recursive_types(T)]
pub struct MpscAsyncReceiver<T: Send + 'static> {
    pub handle: AsyncRx<mpsc::Array<T>>,
}

/// A crossfire handle together with the capacity its channel was made with. Only
/// the calls of this module make one, so the capacity it carries is always the one
/// handed to crossfire when the channel was created.
#[verifier::reject_recursive_types(H)]
pub struct Bounded<H> {
    handle: H,
    capacity: usize,
}

impl<H> Bounded<H> {
    /// The handle.
    pub closed spec fn spec_handle(&self) -> H {
        self.handle
    }

    /// The number of messages the channel was made to hold.
    pub closed spec fn spec_capacity(&self) -> usize {
        self.capacity
    }

    /// Returns the handle.
    pub fn handle(&self) -> (h: &H)
        ensures
            *h == self.spec_handle(),
    {
        &self.handle
    }

    /// Returns the number of messages the channel was made to hold.
    pub fn capacity(&self) -> (c: usize)
        ensures
            c == self.spec_capacity(),
    {
        self.capacity
    }

    /// Gives up the record of the capacity and returns the handle.
    pub fn into_handle(self) -> (h: H)
        ensures
            h == self.spec_handle(),
    {
        self.handle
    }
}

/// What a non-blocking send reports.
pub enum TrySendOutcome<T> {
    /// The message was queued.
    Sent,
    /// The channel was full; the message is handed back.
    Full(T),
    /// Every receiver is gone; the message is handed back.
    Disconnected(T),
}

/// What a non-blocking receive reports.
pub enum TryRecvOutcome<T> {
    /// A queued message.
    Received(T),
    /// Nothing is queued, and a sender remains.
    Empty,
    /// Nothing is queued, and every sender is gone.
    Disconnected,
}

/// Capacities crossfire's bounded single-producer single-consumer channel accepts:
/// above one slot its queue asserts `capacity < 2^31`.
pub open spec fn spsc_capacity_supported(capacity: usize) -> bool {
    capacity < 0x8000_0000
}

/// Capacities crossfire's bounded multi-producer single-consumer channel accepts:
/// above one slot its queue asserts `capacity < 2^31`.
pub open spec fn mpsc_capacity_supported(capacity: usize) -> bool {
    capacity < 0x8000_0000
}

/// Capacities crossfire's bounded multi-producer multi-consumer channel accepts:
/// above one slot its queue asserts `capacity <= u32::MAX` and computes
/// `(capacity + 1).next_power_of_two()`, which must fit in a `usize`.
pub open spec fn mpmc_capacity_supported(capacity: usize) -> bool {
    &&& capacity <= 0xffff_ffff
    &&& (capacity < 0x8000_0000 || usize::MAX > 0xffff_ffff)
}

// --- single producer, single consumer

/// Calls `crossfire::spsc::bounded_async`, which makes a bounded channel and hands
/// out its asynchronous sender and receiver; it panics on a capacity it does not
/// support. Each handle comes back with the capacity handed to crossfire.
#[verifier::external_body]
pub(crate) fn spsc_bounded_async<T: Send + 'static>(capacity: usize) -> (r: (Bounded<SpscAsyncSender<T>>, Bounded<SpscAsyncReceiver<T>>))
    requires
        spsc_capacity_supported(capacity),
    ensures
        r.0.spec_capacity() == capacity,
        r.1.spec_capacity() == capacity,
{
    let (tx, rx) = spsc::bounded_async::<T>(capacity);
    (
        Bounded { handle: SpscAsyncSender { handle: tx }, capacity },
        Bounded { handle: SpscAsyncReceiver { handle: rx }, capacity },
    )
}

/// Calls `crossfire::AsyncTx::try_send`. When the channel is full or the receiver is
/// gone, crossfire hands the same message back.
#[verifier::external_body]
pub(crate) fn spsc_async_try_send<T: Send + 'static>(tx: &SpscAsyncSender<T>, message: T) -> (outcome: TrySendOutcome<T>)
    ensures
        outcome matches TrySendOutcome::Full(m) ==> m == message,
        outcome matches TrySendOutcome::Disconnected(m) ==> m == message,
{
    match tx.handle.try_send(message) {
        Ok(()) => TrySendOutcome::Sent,
        Err(crossfire::TrySendError::Full(m)) => TrySendOutcome::Full(m),
        Err(crossfire::TrySendError::Disconnected(m)) => TrySendOutcome::Disconnected(m),
    }
}

/// Calls `crossfire::AsyncTx::is_disconnected`: whether the receiver is gone.
#[verifier::external_body]
pub(crate) fn spsc_async_tx_is_disconnected<T: Send + 'static>(tx: &SpscAsyncSender<T>) -> bool {
    tx.handle.is_disconnected()
}

/// Calls `crossfire::AsyncTx::into_blocking`, which turns the sender into a
/// blocking sender of the same channel.
#[verifier::external_body]
pub(crate) fn spsc_tx_into_blocking<T: Send + 'static>(tx: Bounded<SpscAsyncSender<T>>) -> (r: Bounded<SpscBlockingSender<T>>)
    ensures
        r.spec_capacity() == tx.spec_capacity(),
{
    Bounded { handle: SpscBlockingSender { handle: tx.handle.handle.into_blocking() }, capacity: tx.capacity }
}

/// Calls `crossfire::AsyncRx::try_recv`.
#[verifier::external_body]
pub(crate) fn spsc_async_try_recv<T: Send + 'static>(rx: &SpscAsyncReceiver<T>) -> TryRecvOutcome<T> {
    match rx.handle.try_recv() {
        Ok(v) => TryRecvOutcome::Received(v),
        Err(crossfire::TryRecvError::Empty) => TryRecvOutcome::Empty,
        Err(crossfire::TryRecvError::Disconnected) => TryRecvOutcome::Disconnected,
    }
}

/// Calls `crossfire::AsyncRx::is_disconnected`: whether the sender is gone.
#[verifier::external_body]
pub(crate) fn spsc_async_rx_is_disconnected<T: Send + 'static>(rx: &SpscAsyncReceiver<T>) -> bool {
    rx.handle.is_disconnected()
}

/// Calls `crossfire::AsyncRx::into_blocking`, which turns the receiver into a
/// blocking receiver of the same channel.
#[verifier::external_body]
pub(crate) fn spsc_rx_into_blocking<T: Send + 'static>(rx: Bounded<SpscAsyncReceiver<T>>) -> (r: Bounded<SpscBlockingReceiver<T>>)
    ensures
        r.spec_capacity() == rx.spec_capacity(),
{
    Bounded { handle: SpscBlockingReceiver { handle: rx.handle.handle.into_blocking() }, capacity: rx.capacity }
}

/// Calls `crossfire::Tx::send`, which blocks while the channel is full. When the
/// receiver is gone, crossfire hands the same message back.
#[verifier::external_body]
pub(crate) fn spsc_blocking_send<T: Send + 'static>(tx: &SpscBlockingSender<T>, message: T) -> (r: Result<(), T>)
    ensures
        r matches Err(m) ==> m == message,
{
    match tx.handle.send(message) {
        Ok(()) => Ok(()),
        Err(crossfire::SendError(m)) => Err(m),
    }
}

/// Calls `crossfire::Tx::try_send`. When the channel is full or the receiver is
/// gone, crossfire hands the same message back.
#[verifier::external_body]
pub(crate) fn spsc_blocking_try_send<T: Send + 'static>(tx: &SpscBlockingSender<T>, message: T) -> (outcome: TrySendOutcome<T>)
    ensures
        outcome matches TrySendOutcome::Full(m) ==> m == message,
        outcome matches TrySendOutcome::Disconnected(m) ==> m == message,
{
    match tx.handle.try_send(message) {
        Ok(()) => TrySendOutcome::Sent,
        Err(crossfire::TrySendError::Full(m)) => TrySendOutcome::Full(m),
        Err(crossfire::TrySendError::Disconnected(m)) => TrySendOutcome::Disconnected(m),
    }
}

/// Calls `crossfire::Tx::is_disconnected`: whether the receiver is gone.
#[verifier::external_body]
pub(crate) fn spsc_blocking_tx_is_disconnected<T: Send + 'static>(tx: &SpscBlockingSender<T>) -> bool {
    tx.handle.is_disconnected()
}

/// Calls `crossfire::Rx::recv`, which blocks until a message is queued; `None`
/// stands for crossfire's `RecvError`, when the sender is gone and nothing is queued.
#[verifier::external_body]
pub(crate) fn spsc_blocking_recv<T: Send + 'static>(rx: &SpscBlockingReceiver<T>) -> Option<T> {
    rx.handle.recv().ok()
}

/// Calls `crossfire::Rx::try_recv`.
#[verifier::external_body]
pub(crate) fn spsc_blocking_try_recv<T: Send + 'static>(rx: &SpscBlockingReceiver<T>) -> TryRecvOutcome<T> {
    match rx.handle.try_recv() {
        Ok(v) => TryRecvOutcome::Received(v),
        Err(crossfire::TryRecvError::Empty) => TryRecvOutcome::Empty,
        Err(crossfire::TryRecvError::Disconnected) => TryRecvOutcome::Disconnected,
    }
}

/// Calls `crossfire::Rx::is_disconnected`: whether the sender is gone.
#[verifier::external_body]
pub(crate) fn spsc_blocking_rx_is_disconnected<T: Send + 'static>(rx: &SpscBlockingReceiver<T>) -> bool {
    rx.handle.is_disconnected()
}

// --- multi producer, multi consumer

/// Calls `crossfire::mpmc::bounded_async`, which makes a bounded channel and hands
/// out a cloneable asynchronous sender and receiver; it panics on a capacity it does
/// not support. Each handle comes back with the capacity handed to crossfire.
#[verifier::external_body]
pub(crate) fn mpmc_bounded_async<T: Send + 'static>(capacity: usize) -> (r: (Bounded<MpmcAsyncSender<T>>, Bounded<MpmcAsyncReceiver<T>>))
    requires
        mpmc_capacity_supported(capacity),
    ensures
        r.0.spec_capacity() == capacity,
        r.1.spec_capacity() == capacity,
{
    let (tx, rx) = mpmc::bounded_async::<T>(capacity);
    (
        Bounded { handle: MpmcAsyncSender { handle: tx }, capacity },
        Bounded { handle: MpmcAsyncReceiver { handle: rx }, capacity },
    )
}

/// Calls `Clone::clone` of `crossfire::MAsyncTx`: another sender of the same channel.
#[verifier::external_body]
pub(crate) fn mpmc_tx_clone<T: Send + 'static>(tx: &Bounded<MpmcAsyncSender<T>>) -> (r: Bounded<MpmcAsyncSender<T>>)
    ensures
        r.spec_capacity() == tx.spec_capacity(),
{
    Bounded { handle: MpmcAsyncSender { handle: tx.handle.handle.clone() }, capacity: tx.capacity }
}

/// Calls `crossfire::AsyncTx::is_disconnected` through `MAsyncTx`: whether every
/// receiver is gone.
#[verifier::external_body]
pub(crate) fn mpmc_tx_is_disconnected<T: Send + 'static>(tx: &MpmcAsyncSender<T>) -> bool {
    tx.handle.is_disconnected()
}

/// Calls `crossfire::AsyncTx::try_send` through `MAsyncTx`. When the channel is full
/// or every receiver is gone, crossfire hands the same message back.
#[verifier::external_body]
pub(crate) fn mpmc_try_send<T: Send + 'static>(tx: &MpmcAsyncSender<T>, message: T) -> (outcome: TrySendOutcome<T>)
    ensures
        outcome matches TrySendOutcome::Full(m) ==> m == message,
        outcome matches TrySendOutcome::Disconnected(m) ==> m == message,
{
    match tx.handle.try_send(message) {
        Ok(()) => TrySendOutcome::Sent,
        Err(crossfire::TrySendError::Full(m)) => TrySendOutcome::Full(m),
        Err(crossfire::TrySendError::Disconnected(m)) => TrySendOutcome::Disconnected(m),
    }
}

/// Calls `crossfire::MAsyncTx::into_blocking`, which turns the sender into a blocking
/// sender of the same channel.
#[verifier::external_body]
pub(crate) fn mpmc_tx_into_blocking<T: Send + 'static>(tx: MpmcAsyncSender<T>) -> MpmcBlockingSender<T> {
    MpmcBlockingSender { handle: tx.handle.into_blocking() }
}

/// Calls `crossfire::Tx::send` through `MTx`, which blocks while the channel is full.
/// When every receiver is gone, crossfire hands the same message back.
#[verifier::external_body]
pub(crate) fn mpmc_blocking_send<T: Send + 'static>(tx: &MpmcBlockingSender<T>, message: T) -> (r: Result<(), T>)
    ensures
        r matches Err(m) ==> m == message,
{
    match tx.handle.send(message) {
        Ok(()) => Ok(()),
        Err(crossfire::SendError(m)) => Err(m),
    }
}

/// Calls `Clone::clone` of `crossfire::MAsyncRx`: another receiver of the same channel.
#[verifier::external_body]
pub(crate) fn mpmc_rx_clone<T: Send + 'static>(rx: &Bounded<MpmcAsyncReceiver<T>>) -> (r: Bounded<MpmcAsyncReceiver<T>>)
    ensures
        r.spec_capacity() == rx.spec_capacity(),
{
    Bounded { handle: MpmcAsyncReceiver { handle: rx.handle.handle.clone() }, capacity: rx.capacity }
}

/// Calls `crossfire::AsyncRx::is_disconnected` through `MAsyncRx`: whether every
/// sender is gone.
#[verifier::external_body]
pub(crate) fn mpmc_rx_is_disconnected<T: Send + 'static>(rx: &MpmcAsyncReceiver<T>) -> bool {
    rx.handle.is_disconnected()
}

/// Calls `crossfire::AsyncRx::try_recv` through `MAsyncRx`.
#[verifier::external_body]
pub(crate) fn mpmc_try_recv<T: Send + 'static>(rx: &MpmcAsyncReceiver<T>) -> TryRecvOutcome<T> {
    match rx.handle.try_recv() {
        Ok(v) => TryRecvOutcome::Received(v),
        Err(crossfire::TryRecvError::Empty) => TryRecvOutcome::Empty,
        Err(crossfire::TryRecvError::Disconnected) => TryRecvOutcome::Disconnected,
    }
}

// --- multi producer, single consumer

/// Calls `crossfire::mpsc::bounded_async`, which makes a bounded channel and hands
/// out a cloneable asynchronous sender and a unique receiver; it panics on a
/// capacity it does not support. Each handle comes back with the capacity handed
/// to crossfire.
#[verifier::external_body]
pub(crate) fn mpsc_bounded_async<T: Send + 'static>(capacity: usize) -> (r: (Bounded<MpscAsyncSender<T>>, Bounded<MpscAsyncReceiver<T>>))
    requires
        mpsc_capacity_supported(capacity),
    ensures
        r.0.spec_capacity() == capacity,
        r.1.spec_capacity() == capacity,
{
    let (tx, rx) = mpsc::bounded_async::<T>(capacity);
    (
        Bounded { handle: MpscAsyncSender { handle: tx }, capacity },
        Bounded { handle: MpscAsyncReceiver { handle: rx }, capacity },
    )
}

/// Calls `Clone::clone` of `crossfire::MAsyncTx`: another sender of the same channel.
#[verifier::external_body]
pub(crate) fn mpsc_tx_clone<T: Send + 'static>(tx: &Bounded<MpscAsyncSender<T>>) -> (r: Bounded<MpscAsyncSender<T>>)
    ensures
        r.spec_capacity() == tx.spec_capacity(),
{
    Bounded { handle: MpscAsyncSender { handle: tx.handle.handle.clone() }, capacity: tx.capacity }
}

/// Calls `crossfire::AsyncTx::is_disconnected` through `MAsyncTx`: whether the
/// receiver is gone.
#[verifier::external_body]
pub(crate) fn mpsc_tx_is_disconnected<T: Send + 'static>(tx: &MpscAsyncSender<T>) -> bool {
    tx.handle.is_disconnected()
}

/// Calls `crossfire::AsyncTx::try_send` through `MAsyncTx`. When the channel is full
/// or the receiver is gone, crossfire hands the same message back.
#[verifier::external_body]
pub(crate) fn mpsc_try_send<T: Send + 'static>(tx: &MpscAsyncSender<T>, message: T) -> (outcome: TrySendOutcome<T>)
    ensures
        outcome matches TrySendOutcome::Full(m) ==> m == message,
        outcome matches TrySendOutcome::Disconnected(m) ==> m == message,
{
    match tx.handle.try_send(message) {
        Ok(()) => TrySendOutcome::Sent,
        Err(crossfire::TrySendError::Full(m)) => TrySendOutcome::Full(m),
        Err(crossfire::TrySendError::Disconnected(m)) => TrySendOutcome::Disconnected(m),
    }
}

/// Calls `crossfire::AsyncRx::try_recv` on the single receiver.
#[verifier::external_body]
pub(crate) fn mpsc_try_recv<T: Send + 'static>(rx: &MpscAsyncReceiver<T>) -> TryRecvOutcome<T> {
    match rx.handle.try_recv() {
        Ok(v) => TryRecvOutcome::Received(v),
        Err(crossfire::TryRecvError::Empty) => TryRecvOutcome::Empty,
        Err(crossfire::TryRecvError::Disconnected) => TryRecvOutcome::Disconnected,
    }
}

/// Calls `crossfire::AsyncRx::is_disconnected` on the single receiver: whether every
/// sender is gone.
#[verifier::external_body]
pub(crate) fn mpsc_rx_is_disconnected<T: Send + 'static>(rx: &MpscAsyncReceiver<T>) -> bool {
    rx.handle.is_disconnected()
}

} // verus!
