//! Plain-value description of a clock or timer failure.

use vstd::prelude::*;

verus! {

/// A failure reported by the clock or timer that measures a run, held as
/// its rendered message.
#[derive(Debug, PartialEq, Eq)]
pub struct TimeFailure {
    /// Rendered message of the failure.
    pub message: String,
}

impl TimeFailure {
    /// Creates a time failure with the given message.
    pub fn new(message: &str) -> (failure: Self)
        ensures
            failure.message@ == message@,
    {
        TimeFailure { message: String::from_str(message) }
    }

    /// Returns the rendered message.
    pub fn message(&self) -> (message: &str)
        ensures
            message@ == self.message@,
    {
        self.message.as_str()
    }
}

} // verus!
