//! Observed termination status of a child process.

use vstd::prelude::*;

verus! {

/// How a child process terminated: with a numeric exit code, or (on Unix)
/// by a signal. A status carries at most one of the two.
#[derive(Clone, Copy, Debug, PartialEq, Eq, Structural)]
pub struct ExitStatus {
    code: Option<i32>,
    signal: Option<i32>,
}

impl ExitStatus {
    /// The exit code, when the process exited normally.
    pub closed spec fn spec_code(self) -> Option<i32> {
        self.code
    }

    /// The terminating signal, when the process was killed by one.
    pub closed spec fn spec_signal(self) -> Option<i32> {
        self.signal
    }

    /// A status for a process that exited with `code`.
    pub fn exited(code: i32) -> (status: Self)
        ensures
            status.spec_code() == Some(code),
            status.spec_signal().is_none(),
    {
        ExitStatus { code: Some(code), signal: None }
    }

    /// A status for a process terminated by `signal`.
    pub fn signaled(signal: i32) -> (status: Self)
        ensures
            status.spec_code().is_none(),
            status.spec_signal() == Some(signal),
    {
        ExitStatus { code: None, signal: Some(signal) }
    }

    /// A status that reports neither an exit code nor a signal.
    pub fn unknown() -> (status: Self)
        ensures
            status.spec_code().is_none(),
            status.spec_signal().is_none(),
    {
        ExitStatus { code: None, signal: None }
    }

    /// Returns the exit code, if the process exited normally.
    pub fn code(&self) -> (code: Option<i32>)
        ensures
            code == self.spec_code(),
    {
        self.code
    }

    /// Returns the terminating signal, if any.
    pub fn signal(&self) -> (signal: Option<i32>)
        ensures
            signal == self.spec_signal(),
    {
        self.signal
    }

    /// Whether the process exited with code zero.
    pub fn success(&self) -> (success: bool)
        ensures
            success == (self.spec_code() == Some(0i32)),
    {
        match self.code {
            Some(code) => code == 0,
            None => false,
        }
    }
}

} // verus!
