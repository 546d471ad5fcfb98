//! Plain-value description of an operating-system I/O failure.

use vstd::prelude::*;

verus! {

/// The categories of I/O failure that command execution distinguishes.
#[derive(Clone, Copy, Debug, PartialEq, Eq, Structural)]
pub enum IoFailureKind {
    /// The named entity does not exist.
    NotFound,
    /// The reading end of a pipe was closed.
    BrokenPipe,
    /// The operation was interrupted and may be retried.
    Interrupted,
    /// The operation would block on a non-blocking descriptor.
    WouldBlock,
    /// A write accepted no bytes.
    WriteZero,
    /// Any other failure.
    Other,
}

/// An I/O failure: its category, the raw operating-system code when one was
/// reported, and its human-readable message.
#[derive(Clone, Debug, PartialEq, Eq)]
pub struct IoFailure {
    /// Failure category.
    pub kind: IoFailureKind,
    /// Raw operating-system error code, when the failure carries one.
    pub raw_os_error: Option<i32>,
    /// Rendered message of the failure.
    pub message: String,
}

impl IoFailure {
    /// Creates a failure from its parts.
    pub fn new(kind: IoFailureKind, raw_os_error: Option<i32>, message: String) -> (failure: Self)
        ensures
            failure.kind == kind,
            failure.raw_os_error == raw_os_error,
            failure.message@ == message@,
    {
        IoFailure { kind, raw_os_error, message }
    }

    /// Creates a failure of kind [`IoFailureKind::Other`] without an OS code.
    pub fn other(message: &str) -> (failure: Self)
        ensures
            failure.kind == IoFailureKind::Other,
            failure.raw_os_error.is_none(),
            failure.message@ == message@,
    {
        IoFailure { kind: IoFailureKind::Other, raw_os_error: None, message: String::from_str(message) }
    }

    /// Returns the failure category.
    pub fn kind(&self) -> (kind: IoFailureKind)
        ensures
            kind == self.kind,
    {
        self.kind
    }

    /// Returns the raw operating-system code, if any.
    pub fn raw_os_error(&self) -> (code: Option<i32>)
        ensures
            code == self.raw_os_error,
    {
        self.raw_os_error
    }

    /// Returns the rendered message.
    pub fn message(&self) -> (message: &str)
        ensures
            message@ == self.message@,
    {
        self.message.as_str()
    }
}

} // verus!
