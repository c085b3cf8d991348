//! AI job queue whose operations report channel errors as they are.

use crate::event_base::error::EventBaseResult;
use crate::event_base::mpmc::{new_mpmc_bounded, MpmcRx, MpmcTx};
use vstd::prelude::*;

verus! {

/// Name of the AI job channel.
pub const AI_JOB_CHANNEL: &'static str = "mock-ai-jobs";

/// Capacity of the AI job channel.
pub const AI_JOB_CAPACITY: usize = 8;

/// One request for the AI worker.
#[derive(Debug)]
pub struct AiJob {
    pub id: u64,
    pub prompt: String,
}

/// Submits jobs; cloneable.
pub struct AiJobTx {
    inner: MpmcTx<AiJob>,
}

/// Takes jobs; cloneable.
pub struct AiJobRx {
    inner: MpmcRx<AiJob>,
}

impl AiJobTx {
    /// The name of the channel behind the queue.
    pub closed spec fn spec_name(&self) -> &'static str {
        self.inner.spec_name()
    }

    /// The number of jobs the channel behind the queue was made to hold.
    pub closed spec fn spec_capacity(&self) -> usize {
        self.inner.spec_capacity()
    }

    /// The channel sender, for the asynchronous submission.
    pub fn inner(&self) -> (tx: &MpmcTx<AiJob>)
        ensures
            tx.spec_name() == self.spec_name(),
            tx.spec_capacity() == self.spec_capacity(),
    {
        &self.inner
    }
}

impl Clone for AiJobTx {
    /// Another submitter on the same queue.
    fn clone(&self) -> (tx: Self)
        ensures
            tx.spec_name() == self.spec_name(),
            tx.spec_capacity() == self.spec_capacity(),
    {
        AiJobTx { inner: self.inner.clone() }
    }
}

impl AiJobRx {
    /// The name of the channel behind the queue.
    pub closed spec fn spec_name(&self) -> &'static str {
        self.inner.spec_name()
    }

    /// The number of jobs the channel behind the queue was made to hold.
    pub closed spec fn spec_capacity(&self) -> usize {
        self.inner.spec_capacity()
    }

    /// The channel receiver, for the asynchronous wait.
    pub fn inner(&self) -> (rx: &MpmcRx<AiJob>)
        ensures
            rx.spec_name() == self.spec_name(),
            rx.spec_capacity() == self.spec_capacity(),
    {
        &self.inner
    }
}

impl Clone for AiJobRx {
    /// Another taker on the same queue.
    fn clone(&self) -> (rx: Self)
        ensures
            rx.spec_name() == self.spec_name(),
            rx.spec_capacity() == self.spec_capacity(),
    {
        AiJobRx { inner: self.inner.clone() }
    }
}

/// Makes the AI job queue: a channel named [`AI_JOB_CHANNEL`] of
/// [`AI_JOB_CAPACITY`] jobs.
pub fn new_ai_job_channel() -> (r: EventBaseResult<(AiJobTx, AiJobRx)>)
    ensures
        r matches Ok((tx, rx)) && tx.spec_name() == AI_JOB_CHANNEL && rx.spec_name() == AI_JOB_CHANNEL
            && tx.spec_capacity() == AI_JOB_CAPACITY && rx.spec_capacity() == AI_JOB_CAPACITY,
{
    let (tx, rx) = new_mpmc_bounded(AI_JOB_CHANNEL, AI_JOB_CAPACITY)?;
    Ok((AiJobTx { inner: tx }, AiJobRx { inner: rx }))
}

} // verus!
