//! What the client side of a connection decides on its own: the error of a call
//! whose connection closed before its response came.

use crate::ipc::socket::envelope::RequestId;
use crate::text::{decimal, u64_to_decimal};
use vstd::prelude::*;
use vstd::string::StringExecFns;

verus! {

/// `"{label} - connection closed before response #{id}"`.
pub open spec fn closed_before_response_message(label: Seq<char>, id: RequestId) -> Seq<char> {
    label + " - connection closed before response #"@ + decimal(id.0 as int)
}

/// The error of call `id` on connection `label` when the connection closed
/// before its response came.
pub fn closed_before_response(label: &str, id: RequestId) -> (m: String)
    ensures
        m@ == closed_before_response_message(label@, id),
{
    let mut m = String::from_str(label);
    m.append(" - connection closed before response #");
    let id_text = u64_to_decimal(id.0);
    m.append(id_text.as_str());
    m
}

} // verus!
