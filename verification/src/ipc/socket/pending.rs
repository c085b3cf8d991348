//! In-flight calls of one client connection, keyed by the request id carried on
//! the wire.

use crate::ipc::socket::envelope::{lemma_request_ids_distinct, nth_request_id, RequestId, Response};
use std::collections::HashMap;
use vstd::prelude::*;

verus! {

broadcast use vstd::std_specs::hash::group_hash_axioms;

/// What waits for the response of each in-flight request, by request id.
/// `V` is whatever hands the reply to the caller.
#[verifier::reject_recursive_types(V)]
pub struct PendingCalls<V> {
    calls: HashMap<u64, V>,
}

impl<V> View for PendingCalls<V> {
    type V = Map<u64, V>;

    closed spec fn view(&self) -> Map<u64, V> {
        self.calls@
    }
}

impl<V> PendingCalls<V> {
    /// A table with no call in flight.
    pub fn new() -> (p: Self)
        ensures
            p@ == Map::<u64, V>::empty(),
    {
        PendingCalls { calls: HashMap::new() }
    }

    /// Records that `waiter` waits for the response to request `id`, and hands back
    /// what waited for that id before, if anything.
    pub fn insert(&mut self, id: RequestId, waiter: V) -> (previous: Option<V>)
        ensures
            final(self)@ == old(self)@.insert(id.0, waiter),
            previous == (if old(self)@.contains_key(id.0) { Some(old(self)@[id.0]) } else { None::<V> }),
    {
        self.calls.insert(id.0, waiter)
    }

    /// Takes out what waits for the response to request `id`; `None` when no call
    /// with that id is in flight.
    pub fn remove(&mut self, id: RequestId) -> (waiter: Option<V>)
        ensures
            final(self)@ == old(self)@.remove(id.0),
            waiter == (if old(self)@.contains_key(id.0) { Some(old(self)@[id.0]) } else { None::<V> }),
    {
        self.calls.remove(&id.0)
    }

    /// Returns whether a call with request id `id` is in flight.
    pub fn contains(&self, id: RequestId) -> (b: bool)
        ensures
            b == self@.contains_key(id.0),
    {
        self.calls.contains_key(&id.0)
    }

    /// The connection is gone: drops every waiting call, so that each learns no
    /// response will come.
    pub fn abandon_all(&mut self)
        ensures
            final(self)@ == Map::<u64, V>::empty(),
    {
        self.calls.clear();
    }

    /// Number of calls in flight.
    pub fn len(&self) -> (n: usize)
        ensures
            n == self@.len(),
    {
        self.calls.len()
    }
}

/// Where a response read from the connection goes.
pub enum Dispatch<V, R> {
    /// The call waiting for it, taken out of the table, and the reply to hand it.
    Deliver(V, R),
    /// No call with that id is in flight; the reply has nowhere to go.
    Unmatched(RequestId, R),
}

impl<V> PendingCalls<V> {
    /// Routes `response` to the call that waits for its id, taking that call out of
    /// the table.
    pub fn dispatch<R>(&mut self, response: Response<R>) -> (d: Dispatch<V, R>)
        ensures
            final(self)@ == old(self)@.remove(response.id.0),
            old(self)@.contains_key(response.id.0) ==> d == Dispatch::<V, R>::Deliver(
                old(self)@[response.id.0],
                response.reply,
            ),
            !old(self)@.contains_key(response.id.0) ==> d == Dispatch::<V, R>::Unmatched(response.id, response.reply),
    {
        let Response { id, reply } = response;
        match self.remove(id) {
            Some(waiter) => Dispatch::Deliver(waiter, reply),
            None => Dispatch::Unmatched(id, reply),
        }
    }
}

/// A response reaches the call that sent the request: after `waiter` is recorded
/// for `id`, taking out `id` yields `waiter` and restores the table as it was,
/// when no call with that id was in flight before.
pub proof fn lemma_response_reaches_its_call<V>(table: Map<u64, V>, id: u64, waiter: V)
    requires
        !table.contains_key(id),
    ensures
        table.insert(id, waiter).contains_key(id),
        table.insert(id, waiter)[id] == waiter,
        table.insert(id, waiter).remove(id) == table,
{
    assert(table.insert(id, waiter).remove(id) =~= table);
}

/// A response is delivered at most once: after its call is taken out, another
/// response with the same id finds no call.
pub proof fn lemma_response_taken_once<V>(table: Map<u64, V>, id: u64)
    ensures
        !table.remove(id).contains_key(id),
{
}

/// Calls with other ids are left alone: recording or taking out `id` does not
/// change what waits for any other id.
pub proof fn lemma_other_calls_unchanged<V>(table: Map<u64, V>, id: u64, other: u64, waiter: V)
    requires
        id != other,
    ensures
        table.insert(id, waiter).contains_key(other) == table.contains_key(other),
        table.remove(id).contains_key(other) == table.contains_key(other),
        table.contains_key(other) ==> table.insert(id, waiter)[other] == table[other] && table.remove(id)[other]
            == table[other],
{
}

/// The table after calls waiting with `waiters` were recorded one after another,
/// each under the next id of a generator that started at `start`.
pub open spec fn recorded_calls<V>(start: u64, waiters: Seq<V>) -> Map<u64, V>
    decreases waiters.len(),
{
    if waiters.len() == 0 {
        Map::empty()
    } else {
        recorded_calls(start, waiters.drop_last()).insert(
            nth_request_id(start, (waiters.len() - 1) as nat),
            waiters.last(),
        )
    }
}

/// The table after the responses with ids `ids` were dispatched, in that order.
pub open spec fn after_responses<V>(table: Map<u64, V>, ids: Seq<u64>) -> Map<u64, V>
    decreases ids.len(),
{
    if ids.len() == 0 {
        table
    } else {
        after_responses(table, ids.drop_last()).remove(ids.last())
    }
}

/// The ids of the calls at positions `order`, for a generator that started at `start`.
pub open spec fn ids_at(start: u64, order: Seq<int>) -> Seq<u64> {
    order.map_values(|j: int| nth_request_id(start, j as nat))
}

/// Each recorded call waits under its own id.
proof fn lemma_recorded_call<V>(start: u64, waiters: Seq<V>, j: int)
    requires
        waiters.len() <= 0x1_0000_0000_0000_0000,
        0 <= j < waiters.len(),
    ensures
        recorded_calls(start, waiters).contains_key(nth_request_id(start, j as nat)),
        recorded_calls(start, waiters)[nth_request_id(start, j as nat)] == waiters[j],
    decreases waiters.len(),
{
    let last = waiters.len() - 1;
    if j < last {
        lemma_recorded_call(start, waiters.drop_last(), j);
        lemma_request_ids_distinct(start, j as nat, last as nat);
    }
}

/// Dispatching responses for other ids leaves a call where it was.
proof fn lemma_other_responses_keep_call<V>(table: Map<u64, V>, ids: Seq<u64>, id: u64)
    requires
        table.contains_key(id),
        !ids.contains(id),
    ensures
        after_responses(table, ids).contains_key(id),
        after_responses(table, ids)[id] == table[id],
    decreases ids.len(),
{
    if ids.len() > 0 {
        assert(!ids.drop_last().contains(id)) by {
            if ids.drop_last().contains(id) {
                let k = choose|k: int| 0 <= k < ids.drop_last().len() && ids.drop_last()[k] == id;
                assert(ids[k] == id);
            }
        }
        assert(ids.last() != id) by {
            assert(ids[ids.len() - 1] == ids.last());
        }
        lemma_other_responses_keep_call(table, ids.drop_last(), id);
    }
}

/// No response finds a call once the connection is abandoned: after every waiting
/// call is dropped, whatever id a late response carries, nothing waits for it.
pub proof fn lemma_abandoned_table_has_no_calls<V>(id: u64)
    ensures
        !Map::<u64, V>::empty().contains_key(id),
{
}

/// Several calls in flight at once each get their own reply: when calls were
/// recorded one after another under the ids of one generator (fewer than 2^64 of
/// them), and their responses come back in any order, each response finds the
/// call that sent its id, whatever responses came before it.
pub proof fn lemma_in_flight_calls_get_their_replies<V>(start: u64, waiters: Seq<V>, order: Seq<int>)
    requires
        waiters.len() <= 0x1_0000_0000_0000_0000,
        forall|i: int| 0 <= i < order.len() ==> 0 <= #[trigger] order[i] < waiters.len(),
        forall|i: int, k: int| 0 <= i < k < order.len() ==> order[i] != order[k],
    ensures
        forall|m: int|
            #![trigger order[m]]
            0 <= m < order.len() ==> {
                let table = after_responses(recorded_calls(start, waiters), ids_at(start, order.take(m)));
                let id = nth_request_id(start, order[m] as nat);
                &&& table.contains_key(id)
                &&& table[id] == waiters[order[m]]
            },
{
    assert forall|m: int| #![trigger order[m]] 0 <= m < order.len() implies {
        let table = after_responses(recorded_calls(start, waiters), ids_at(start, order.take(m)));
        let id = nth_request_id(start, order[m] as nat);
        &&& table.contains_key(id)
        &&& table[id] == waiters[order[m]]
    } by {
        let id = nth_request_id(start, order[m] as nat);
        let earlier = ids_at(start, order.take(m));
        lemma_recorded_call(start, waiters, order[m]);
        assert(!earlier.contains(id)) by {
            if earlier.contains(id) {
                let k = choose|k: int| 0 <= k < earlier.len() && earlier[k] == id;
                assert(earlier[k] == nth_request_id(start, order[k] as nat));
                if order[k] < order[m] {
                    lemma_request_ids_distinct(start, order[k] as nat, order[m] as nat);
                } else {
                    lemma_request_ids_distinct(start, order[m] as nat, order[k] as nat);
                }
            }
        }
        lemma_other_responses_keep_call(recorded_calls(start, waiters), earlier, id);
    }
}

} // verus!
