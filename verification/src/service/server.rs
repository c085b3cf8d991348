//! Application service logic: the shared counter and the execution of one call.
//! Sharing the service between connections (a lock) and the artificial latency of
//! `Multiply` are the caller's.

use crate::service::contract::{BiParams, Call, CallResult, CounterIncrParams};
use crate::text::{decimal, i64_to_decimal};
use vstd::prelude::*;
use vstd::string::StringExecFns;

verus! {

/// `v` lies in `i64`'s range.
pub open spec fn fits_i64(v: int) -> bool {
    i64::MIN <= v <= i64::MAX
}

/// The message of a refused operation: `"{name} overflow for {a} {symbol} {b}"`.
pub open spec fn overflow_message(name: Seq<char>, symbol: Seq<char>, a: i64, b: i64) -> Seq<char> {
    name + " overflow for "@ + decimal(a as int) + " "@ + symbol + " "@ + decimal(b as int)
}

/// What a call of `Add` answers: the sum, or the overflow message.
pub open spec fn add_answer(r: CallResult, p: BiParams) -> bool {
    match r {
        CallResult::Value(v) => fits_i64(p.a + p.b) && v == p.a + p.b,
        CallResult::Error(m) => !fits_i64(p.a + p.b) && m@ == overflow_message("add"@, "+"@, p.a, p.b),
    }
}

/// What a call of `Multiply` answers: the product, or the overflow message.
pub open spec fn multiply_answer(r: CallResult, p: BiParams) -> bool {
    match r {
        CallResult::Value(v) => fits_i64(p.a * p.b) && v == p.a * p.b,
        CallResult::Error(m) => !fits_i64(p.a * p.b) && m@ == overflow_message("multiply"@, "*"@, p.a, p.b),
    }
}

fn overflow_text(name: &str, symbol: &str, a: i64, b: i64) -> (m: String)
    ensures
        m@ == overflow_message(name@, symbol@, a, b),
{
    let mut m = String::from_str(name);
    m.append(" overflow for ");
    let a_text = i64_to_decimal(a);
    m.append(a_text.as_str());
    m.append(" ");
    m.append(symbol);
    m.append(" ");
    let b_text = i64_to_decimal(b);
    m.append(b_text.as_str());
    m
}

/// Executes `Add`: the sum, or an error message when it leaves `i64`'s range.
pub fn exec_add(p: BiParams) -> (r: CallResult)
    ensures
        add_answer(r, p),
{
    match p.a.checked_add(p.b) {
        Some(value) => CallResult::Value(value),
        None => CallResult::Error(overflow_text("add", "+", p.a, p.b)),
    }
}

/// Executes `Multiply`: the product, or an error message when it leaves `i64`'s range.
pub fn exec_multiply(p: BiParams) -> (r: CallResult)
    ensures
        multiply_answer(r, p),
{
    match p.a.checked_mul(p.b) {
        Some(value) => CallResult::Value(value),
        None => CallResult::Error(overflow_text("multiply", "*", p.a, p.b)),
    }
}

/// Shared service state, observable from every client connection.
#[derive(Debug)]
pub struct Server {
    counter: i64,
}

impl View for Server {
    type V = i64;

    /// The counter.
    closed spec fn view(&self) -> i64 {
        self.counter
    }
}

impl Default for Server {
    fn default() -> (s: Self)
        ensures
            s@ == 0,
    {
        Server { counter: 0 }
    }
}

impl Server {
    /// Adds `by` to the counter and returns the new value. An increment that would
    /// leave `i64`'s range is refused with a message, and the counter stays.
    pub fn counter_incr(&mut self, by: i64) -> (r: Result<i64, String>)
        ensures
            final(self)@ == counter_step(old(self)@ as int, Call::CounterIncr(CounterIncrParams { by })),
            fits_i64(old(self)@ + by) ==> r == Ok::<i64, String>(final(self)@),
            !fits_i64(old(self)@ + by) ==> (r matches Err(m) && m@ == overflow_message(
                "counter"@,
                "+"@,
                old(self)@,
                by,
            )),
    {
        match self.counter.checked_add(by) {
            Some(value) => {
                self.counter = value;
                Ok(value)
            },
            None => Err(overflow_text("counter", "+", self.counter, by)),
        }
    }

    /// Returns the counter.
    pub fn counter_get(&self) -> (v: i64)
        ensures
            v == self@,
    {
        self.counter
    }

    /// Executes one call. `Add` and `Multiply` leave the counter alone and answer
    /// their result or an overflow message; `CounterIncr` adds to the counter and
    /// answers the new value, or answers an overflow message and leaves the counter;
    /// `CounterGet` answers the counter.
    pub fn exec(&mut self, call: Call) -> (r: CallResult)
        ensures
            final(self)@ == counter_step(old(self)@ as int, call),
            match call {
                Call::Add(p) => add_answer(r, p),
                Call::Multiply(p) => multiply_answer(r, p),
                Call::CounterIncr(p) => if fits_i64(old(self)@ + p.by) {
                    r == CallResult::Value(final(self)@)
                } else {
                    r matches CallResult::Error(m) && m@ == overflow_message("counter"@, "+"@, old(self)@, p.by)
                },
                Call::CounterGet => r == CallResult::Value(old(self)@),
            },
    {
        match call {
            Call::Add(p) => exec_add(p),
            Call::Multiply(p) => exec_multiply(p),
            Call::CounterIncr(CounterIncrParams { by }) => to_call_result(self.counter_incr(by)),
            Call::CounterGet => to_call_result(Ok(self.counter_get())),
        }
    }
}

/// Turns the result of a counter operation into the answer of its call: the value,
/// or the error's message.
pub fn to_call_result(result: Result<i64, String>) -> (r: CallResult)
    ensures
        match result {
            Ok(v) => r == CallResult::Value(v),
            Err(m) => r == CallResult::Error(m),
        },
{
    match result {
        Ok(value) => CallResult::Value(value),
        Err(message) => CallResult::Error(message),
    }
}

/// The counter after `call` runs on counter `counter`: only an increment moves it,
/// and only when the sum stays in `i64`'s range.
pub open spec fn counter_step(counter: int, call: Call) -> int {
    match call {
        Call::CounterIncr(p) => if fits_i64(counter + p.by) {
            counter + p.by
        } else {
            counter
        },
        _ => counter,
    }
}

/// The counter after `calls` run one after another on counter `counter`.
pub open spec fn counter_after(counter: int, calls: Seq<Call>) -> int
    decreases calls.len(),
{
    if calls.len() == 0 {
        counter
    } else {
        counter_after(counter_step(counter, calls[0]), calls.drop_first())
    }
}

/// What `call` asks to add to the counter.
pub open spec fn increment_of(call: Call) -> int {
    match call {
        Call::CounterIncr(p) => p.by as int,
        _ => 0,
    }
}

/// The sum of the increments among `calls`.
pub open spec fn increments_total(calls: Seq<Call>) -> int
    decreases calls.len(),
{
    if calls.len() == 0 {
        0
    } else {
        increment_of(calls[0]) + increments_total(calls.drop_first())
    }
}

/// Every increment among `calls`, run one after another from `counter`, keeps the
/// counter in `i64`'s range.
pub open spec fn increments_fit(counter: int, calls: Seq<Call>) -> bool
    decreases calls.len(),
{
    if calls.len() == 0 {
        true
    } else {
        fits_i64(counter + increment_of(calls[0])) && increments_fit(counter + increment_of(calls[0]), calls.drop_first())
    }
}

/// The counter every connection observes is what it started from plus every
/// increment applied, whatever other calls ran in between, as long as no
/// increment was refused.
pub proof fn lemma_counter_is_sum_of_increments(counter: int, calls: Seq<Call>)
    requires
        increments_fit(counter, calls),
    ensures
        counter_after(counter, calls) == counter + increments_total(calls),
    decreases calls.len(),
{
    if calls.len() > 0 {
        assert(counter_step(counter, calls[0]) == counter + increment_of(calls[0]));
        lemma_counter_is_sum_of_increments(counter + increment_of(calls[0]), calls.drop_first());
    }
}

/// A refused increment changes nothing: the counter stays where it was.
pub proof fn lemma_refused_increment_keeps_counter(counter: int, by: i64)
    requires
        !fits_i64(counter + by),
    ensures
        counter_step(counter, Call::CounterIncr(CounterIncrParams { by })) == counter,
{
}

} // verus!
