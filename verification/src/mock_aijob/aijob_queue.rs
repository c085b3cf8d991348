//! AI job queue whose operations report errors of their own, classified from the
//! channel's.

use crate::event_base::error::EventBaseError;
use crate::event_base::mpmc::{new_mpmc_bounded, MpmcRx, MpmcTx};
use crate::mock_aijob::ai_queue::{AI_JOB_CAPACITY, AI_JOB_CHANNEL};
use crate::mock_aijob::aijob_error::{AiJobError, AiJobResult};
use vstd::prelude::*;

verus! {

/// One request for the AI worker.
#[derive(Debug)]
pub struct AiJob {
    pub id: u64,
    pub prompt: String,
}

/// Submits jobs; cloneable.
pub struct AiJobTx {
    inner: MpmcTx<AiJob>,
}

/// Takes jobs; cloneable.
pub struct AiJobRx {
    inner: MpmcRx<AiJob>,
}

impl AiJobTx {
    /// The name of the channel behind the queue.
    pub closed spec fn spec_name(&self) -> &'static str {
        self.inner.spec_name()
    }

    /// The number of jobs the channel behind the queue was made to hold.
    pub closed spec fn spec_capacity(&self) -> usize {
        self.inner.spec_capacity()
    }

    /// The channel sender, for the asynchronous submission.
    pub fn inner(&self) -> (tx: &MpmcTx<AiJob>)
        ensures
            tx.spec_name() == self.spec_name(),
            tx.spec_capacity() == self.spec_capacity(),
    {
        &self.inner
    }
}

impl Clone for AiJobTx {
    /// Another submitter on the same queue.
    fn clone(&self) -> (tx: Self)
        ensures
            tx.spec_name() == self.spec_name(),
            tx.spec_capacity() == self.spec_capacity(),
    {
        AiJobTx { inner: self.inner.clone() }
    }
}

impl AiJobRx {
    /// The name of the channel behind the queue.
    pub closed spec fn spec_name(&self) -> &'static str {
        self.inner.spec_name()
    }

    /// The number of jobs the channel behind the queue was made to hold.
    pub closed spec fn spec_capacity(&self) -> usize {
        self.inner.spec_capacity()
    }

    /// The channel receiver, for the asynchronous wait.
    pub fn inner(&self) -> (rx: &MpmcRx<AiJob>)
        ensures
            rx.spec_name() == self.spec_name(),
            rx.spec_capacity() == self.spec_capacity(),
    {
        &self.inner
    }
}

impl Clone for AiJobRx {
    /// Another taker on the same queue.
    fn clone(&self) -> (rx: Self)
        ensures
            rx.spec_name() == self.spec_name(),
            rx.spec_capacity() == self.spec_capacity(),
    {
        AiJobRx { inner: self.inner.clone() }
    }
}

/// The queue's error for a channel error: a peer that went away closes the queue,
/// anything else leaves it unavailable.
pub open spec fn spec_map_event_base_error(error: EventBaseError) -> AiJobError {
    if error.spec_is_disconnected() {
        AiJobError::QueueClosed
    } else {
        AiJobError::QueueUnavailable
    }
}

/// Classifies a channel error for the queue's users.
pub fn map_event_base_error(error: EventBaseError) -> (e: AiJobError)
    ensures
        e == spec_map_event_base_error(error),
{
    if error.is_disconnected() {
        AiJobError::QueueClosed
    } else {
        AiJobError::QueueUnavailable
    }
}

/// Makes the AI job queue: a channel named [`AI_JOB_CHANNEL`] of
/// [`AI_JOB_CAPACITY`] jobs.
pub fn new_ai_job_channel() -> (r: AiJobResult<(AiJobTx, AiJobRx)>)
    ensures
        r matches Ok((tx, rx)) && tx.spec_name() == AI_JOB_CHANNEL && rx.spec_name() == AI_JOB_CHANNEL
            && tx.spec_capacity() == AI_JOB_CAPACITY && rx.spec_capacity() == AI_JOB_CAPACITY,
{
    match new_mpmc_bounded(AI_JOB_CHANNEL, AI_JOB_CAPACITY) {
        Ok((tx, rx)) => Ok((AiJobTx { inner: tx }, AiJobRx { inner: rx })),
        Err(e) => Err(map_event_base_error(e)),
    }
}

} // verus!
