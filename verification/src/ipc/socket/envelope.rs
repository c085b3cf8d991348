//! Transport envelope: correlation id and the generic request/response frames.
//!
//! The envelope is plumbing only, the application supplies the method and reply
//! payload types.

use crate::text::{decimal, u64_to_decimal};
use vstd::prelude::*;

verus! {

/// First id handed out by [`RequestIdGen`].
///
/// `0` stays reserved as a no-correlation sentinel, for example for a
/// fire-and-forget notification frame.
pub const FIRST_REQUEST_ID: u64 = 1;

/// Correlation id, unique among the in-flight requests of one client connection.
#[derive(Debug, Clone, Copy, PartialEq, Eq, Hash, Structural)]
pub struct RequestId(pub u64);

impl RequestId {
    /// Returns the number the id stands for.
    pub fn value(&self) -> (v: u64)
        ensures
            v == self.0,
    {
        self.0
    }

    /// The id in decimal, as it is shown in messages.
    pub fn to_string(&self) -> (s: String)
        ensures
            s@ == decimal(self.0 as int),
    {
        u64_to_decimal(self.0)
    }
}

impl core::ops::Deref for RequestId {
    type Target = u64;

    fn deref(&self) -> (v: &u64)
        ensures
            *v == self.0,
    {
        &self.0
    }
}

impl From<u64> for RequestId {
    fn from(v: u64) -> (id: Self) {
        RequestId(v)
    }
}

impl vstd::std_specs::convert::FromSpecImpl<u64> for RequestId {
    open spec fn obeys_from_spec() -> bool {
        true
    }

    open spec fn from_spec(v: u64) -> Self {
        RequestId(v)
    }
}

impl From<RequestId> for u64 {
    fn from(id: RequestId) -> (v: Self) {
        id.0
    }
}

impl vstd::std_specs::convert::FromSpecImpl<RequestId> for u64 {
    open spec fn obeys_from_spec() -> bool {
        true
    }

    open spec fn from_spec(id: RequestId) -> Self {
        id.0
    }
}

/// The id handed out `k` calls after the generator stood at `start`: ids count up
/// by one and wrap around past `u64::MAX`.
pub open spec fn nth_request_id(start: u64, k: nat) -> u64 {
    ((start as nat + k) % 0x1_0000_0000_0000_0000) as u64
}

/// Per-connection monotonic request id generator.
#[derive(Debug)]
pub struct RequestIdGen {
    next: u64,
}

impl View for RequestIdGen {
    type V = u64;

    /// The id the next call hands out.
    closed spec fn view(&self) -> u64 {
        self.next
    }
}

impl RequestIdGen {
    /// Returns the next id for this connection.
    pub fn next_id(&mut self) -> (id: RequestId)
        ensures
            id.0 == old(self)@,
            final(self)@ == nth_request_id(old(self)@, 1),
    {
        let id = self.next;
        self.next = id.wrapping_add(1);
        RequestId(id)
    }
}

impl Default for RequestIdGen {
    fn default() -> (g: Self)
        ensures
            g@ == FIRST_REQUEST_ID,
    {
        RequestIdGen { next: FIRST_REQUEST_ID }
    }
}

/// One more call moves the generator one id further along.
pub proof fn lemma_next_request_id(start: u64, k: nat)
    ensures
        nth_request_id(nth_request_id(start, k), 1) == nth_request_id(start, k + 1),
        nth_request_id(start, 0) == start,
{
    let m: int = 0x1_0000_0000_0000_0000;
    let a: int = start as int + k;
    assert(nth_request_id(start, k) == a % m);
    assert((a % m + 1) % m == (a + 1) % m) by (nonlinear_arith)
        requires m > 0;
}

/// Ids are unique among in-flight requests: the ids handed out by any fewer than
/// 2^64 consecutive calls are pairwise distinct.
pub proof fn lemma_request_ids_distinct(start: u64, i: nat, j: nat)
    requires
        i < j < 0x1_0000_0000_0000_0000,
    ensures
        nth_request_id(start, i) != nth_request_id(start, j),
{
    let m: int = 0x1_0000_0000_0000_0000;
    let a: int = start as int + i;
    let b: int = start as int + j;
    assert(a % m != b % m) by (nonlinear_arith)
        requires
            0 < b - a < m,
            m > 0,
    {
        vstd::arithmetic::div_mod::lemma_fundamental_div_mod(a, m);
        vstd::arithmetic::div_mod::lemma_fundamental_div_mod(b, m);
    }
}

/// The reserved id is never handed out by a fresh generator before it wraps: the
/// first 2^64 - 1 ids of a generator that starts at [`FIRST_REQUEST_ID`] are not 0.
pub proof fn lemma_fresh_ids_not_reserved(k: nat)
    requires
        k < 0xffff_ffff_ffff_ffff,
    ensures
        nth_request_id(FIRST_REQUEST_ID, k) != 0,
{
}

/// Client to service message, `M` is the application method payload.
#[derive(Debug, Clone)]
pub struct Request<M> {
    pub id: RequestId,
    pub method: M,
}

/// Service to client message, `R` is the application reply payload.
///
/// The id is echoed from the request; the service never generates ids.
#[derive(Debug, Clone)]
pub struct Response<R> {
    pub id: RequestId,
    pub reply: R,
}

impl<R> Response<R> {
    /// The response to the request with id `request_id`: it echoes that id, so the
    /// service never makes one up.
    pub fn for_request(request_id: RequestId, reply: R) -> (response: Self)
        ensures
            response.id == request_id,
            response.reply == reply,
    {
        Response { id: request_id, reply }
    }
}

} // verus!
