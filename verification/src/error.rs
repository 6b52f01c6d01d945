//! The error-checked calling convention.
//!
//! Every native entry point takes an out-parameter error slot beside its
//! primary result: on failure the SDK fills the slot with an error object
//! holding an exception category and a message, and the caller must read and
//! free that object exactly once. Here the content of a filled slot is
//! modelled by [`Error`] and the slot itself by [`ErrorChecker`]; checking a
//! slot consumes it, so a filled slot can neither be read twice nor left
//! unread by verified code.

use crate::kind::Rs2Exception;
use vstd::prelude::*;

verus! {

/// A typed failure reported by the native library: the exception category
/// and the human-readable message extracted from the native error object.
#[derive(Clone, Debug)]
pub struct Error {
    /// The native library's exception category for this failure.
    pub exception: Rs2Exception,
    /// The native library's human-readable description of this failure.
    pub message: String,
}

impl Error {
    /// Build a failure value from its category and message.
    pub fn new(exception: Rs2Exception, message: String) -> (r: Error)
        ensures
            r.exception == exception,
            r.message == message,
    {
        Error { exception, message }
    }

    /// The native library's exception category for this failure.
    pub fn exception(&self) -> (r: Rs2Exception)
        ensures
            r == self.exception,
    {
        self.exception
    }

    /// The native library's human-readable message for this failure.
    pub fn error_message(&self) -> (r: String)
        ensures
            r == self.message,
    {
        self.message.clone()
    }
}

/// The out-parameter error slot of one native call.
///
/// A slot starts empty; the native call may fill it ([`ErrorChecker::report`]
/// stands for the SDK writing the slot). [`ErrorChecker::check`] then
/// consumes the slot and converts it into an ordinary result: the slot's
/// content is read exactly once and cannot be revisited afterwards.
#[derive(Debug)]
pub struct ErrorChecker {
    slot: Option<Error>,
}

impl ErrorChecker {
    /// The content of the slot: `None` while unfilled.
    pub closed spec fn spec_slot(&self) -> Option<Error> {
        self.slot
    }

    /// A fresh, unfilled slot, as handed to a native call.
    pub fn new() -> (r: ErrorChecker)
        ensures
            r.spec_slot() is None,
    {
        ErrorChecker { slot: None }
    }

    /// Record the error object the native call wrote into the slot.
    pub fn report(&mut self, e: Error)
        ensures
            final(self).spec_slot() == Some(e),
    {
        self.slot = Some(e);
    }

    /// Inspect the slot after the call: an unfilled slot means success, a
    /// filled one yields its error. Consumes the slot, so the error object
    /// is taken out exactly once.
    pub fn check(self) -> (r: Result<(), Error>)
        ensures
            self.spec_slot() is None ==> r is Ok,
            self.spec_slot() matches Some(e) ==> r == Result::<(), Error>::Err(e),
    {
        match self.slot {
            None => Ok(()),
            Some(e) => Err(e),
        }
    }
}

} // verus!
