//! The error of the event demos: a message, or the error of one of their parts.

use crate::event_base::error::EventBaseError;
use crate::mock_aijob::aijob_error::AijobError;
use vstd::prelude::*;
use vstd::string::StringExecFns;

verus! {

/// The error of the event demos.
#[derive(Debug)]
pub enum Error {
    Custom(String),
    EventBase(EventBaseError),
    Aijob(AijobError),
}

/// The result of the event demos.
pub type Result<T> = core::result::Result<T, Error>;

impl Error {
    /// An error carrying `val` as its message.
    pub fn custom(val: String) -> (e: Self)
        ensures
            e matches Error::Custom(m) && m@ == val@,
    {
        Error::Custom(val)
    }

    /// An error carrying the message of another error, as its `Display` wrote it.
    pub fn custom_from_error(err_message: String) -> (e: Self)
        ensures
            e matches Error::Custom(m) && m@ == err_message@,
    {
        Error::Custom(err_message)
    }
}

impl From<String> for Error {
    fn from(val: String) -> (e: Self) {
        Error::Custom(val)
    }
}

impl vstd::std_specs::convert::FromSpecImpl<String> for Error {
    open spec fn obeys_from_spec() -> bool {
        true
    }

    open spec fn from_spec(val: String) -> Self {
        Error::Custom(val)
    }
}

impl From<&String> for Error {
    fn from(val: &String) -> (e: Self) {
        Error::Custom(val.clone())
    }
}

impl vstd::std_specs::convert::FromSpecImpl<&String> for Error {
    open spec fn obeys_from_spec() -> bool {
        true
    }

    open spec fn from_spec(val: &String) -> Self {
        Error::Custom(*val)
    }
}

impl From<&str> for Error {
    fn from(val: &str) -> (e: Self)
        ensures
            e matches Error::Custom(m) && m@ == val@,
    {
        Error::Custom(String::from_str(val))
    }
}

impl vstd::std_specs::convert::FromSpecImpl<&str> for Error {
    /// A `String` made from a `&str` is known by its characters only, so this
    /// conversion is described by the `ensures` of `from` rather than by a spec value.
    open spec fn obeys_from_spec() -> bool {
        false
    }

    open spec fn from_spec(val: &str) -> Self {
        Error::Custom(choose|s: String| s@ == val@)
    }
}

impl From<EventBaseError> for Error {
    fn from(e: EventBaseError) -> (r: Self) {
        Error::EventBase(e)
    }
}

impl vstd::std_specs::convert::FromSpecImpl<EventBaseError> for Error {
    open spec fn obeys_from_spec() -> bool {
        true
    }

    open spec fn from_spec(e: EventBaseError) -> Self {
        Error::EventBase(e)
    }
}

impl From<AijobError> for Error {
    fn from(e: AijobError) -> (r: Self) {
        Error::Aijob(e)
    }
}

impl vstd::std_specs::convert::FromSpecImpl<AijobError> for Error {
    open spec fn obeys_from_spec() -> bool {
        true
    }

    open spec fn from_spec(e: AijobError) -> Self {
        Error::Aijob(e)
    }
}

} // verus!
