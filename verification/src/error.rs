//! The error that every audio operation reports: what was being done, and why
//! it failed.
use vstd::prelude::*;

use crate::text::concat3;

verus! {

/// A failed audio operation: the action that was attempted and the details of
/// the failure.
#[derive(Clone, Debug)]
pub struct AudioError {
    action: String,
    details: String,
}

/// The outcome of an audio operation.
pub type AudioResult<T> = Result<T, AudioError>;

/// An error as plain text: `(action, details)`.
pub type ErrorText = (Seq<char>, Seq<char>);

impl View for AudioError {
    type V = ErrorText;

    closed spec fn view(&self) -> ErrorText {
        (self.action@, self.details@)
    }
}

impl AudioError {
    pub fn new(action: String, details: String) -> (e: AudioError)
        ensures
            e@ == (action@, details@),
    {
        AudioError { action, details }
    }

    pub fn action(&self) -> (s: &str)
        ensures
            s@ == self@.0,
    {
        self.action.as_str()
    }

    pub fn details(&self) -> (s: &str)
        ensures
            s@ == self@.1,
    {
        self.details.as_str()
    }

    /// The error as one line of text, `"{action}: {details}"`.
    pub fn message(&self) -> (s: String)
        ensures
            s@ == error_message(self@),
    {
        concat3(self.action.as_str(), ": ", self.details.as_str())
    }
}

/// The one-line text of an error.
pub open spec fn error_message(e: ErrorText) -> Seq<char> {
    e.0 + ": "@ + e.1
}

} // verus!
