//! The client's view of a call's answer.

use crate::service::contract::CallResult;
use vstd::prelude::*;
use vstd::string::StringExecFns;

verus! {

/// The text of a service error as the client reports it.
pub open spec fn service_error_message(label: Seq<char>, message: Seq<char>) -> Seq<char> {
    label + " - service error: "@ + message
}

/// What a caller gets from an answer: the value, or an error naming the client
/// `label` and carrying the service's message.
pub fn call_value(label: &str, result: CallResult) -> (r: Result<i64, String>)
    ensures
        match result {
            CallResult::Value(v) => r == Ok::<i64, String>(v),
            CallResult::Error(m) => r matches Err(e) && e@ == service_error_message(label@, m@),
        },
{
    match result {
        CallResult::Value(value) => Ok(value),
        CallResult::Error(message) => {
            let mut e = String::from_str(label);
            e.append(" - service error: ");
            e.append(message.as_str());
            Err(e)
        },
    }
}

} // verus!
