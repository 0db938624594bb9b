//! The error taxonomy of the service, and the message-carrying error
//! value handed to the response layer.

use vstd::prelude::*;

verus! {

/// The closed set of failures a caller of the core can see.
///
/// `Unavailable` covers transport faults and pool exhaustion and is
/// retryable; `Conflict` is a uniqueness violation on insert;
/// `InvalidInput` is a business-rule rejection decided before any
/// storage access; `Internal` is a provisioning failure, fatal at
/// startup.
#[derive(Clone, Copy, Debug, PartialEq, Eq, Structural)]
pub enum ServiceError {
    Unavailable,
    Conflict,
    InvalidInput,
    Internal,
}

/// A diagnostic message for the response layer; never a control-flow
/// signal.
pub struct Error {
    pub message: String,
}

impl Error {
    pub fn new(message: String) -> (e: Error)
        ensures
            e.message@ == message@,
    {
        Error { message }
    }

    /// The text carried by this error.
    pub fn message(&self) -> (m: &String)
        ensures
            m@ == self.message@,
    {
        &self.message
    }
}

} // verus!
