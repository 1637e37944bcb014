//! The errors that a fallible operation on values reports.
use vstd::prelude::*;
use crate::string::NapiString;
use crate::sys::Status;

verus! {

/// Why an operation on values failed.
#[derive(Clone, Copy, Debug, PartialEq, Eq, Structural)]
pub enum NapiError {
    /// An ABI primitive reported this status, with no exception pending.
    Status(Status),
    /// An ABI primitive failed while the host had an exception pending; the
    /// exception is left to propagate back into the host.
    PendingException,
    /// A value had another runtime type than the one asked for; the string
    /// value holds the message.
    TypeError(NapiString),
}

pub type NapiResult<T> = Result<T, NapiError>;

impl NapiError {
    /// A type error with the given message.
    pub fn type_error(message: NapiString) -> (r: NapiError)
        ensures
            r == NapiError::TypeError(message),
    {
        NapiError::TypeError(message)
    }
}

} // verus!
