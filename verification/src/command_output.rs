//! Captured result of a finished command.

use std::str::Utf8Error;
use vstd::prelude::*;

use crate::ExitStatus;
use crate::TimeSpan;

verus! {

/// Lets the standard UTF-8 decoding error stand in signatures.
#[verifier::external_type_specification]
#[verifier::external_body]
pub struct ExUtf8Error(Utf8Error);

/// Exit status, captured streams and elapsed time of a command run.
///
/// Each stream records whether it was truncated at its capture limit and
/// whether it was read through end of file.
pub struct CommandOutput {
    status: ExitStatus,
    stdout: Vec<u8>,
    stderr: Vec<u8>,
    stdout_truncated: bool,
    stderr_truncated: bool,
    stdout_complete: bool,
    stderr_complete: bool,
    elapsed: TimeSpan,
}

/// Whether `bytes` is valid UTF-8, and the decoded text when it is.
pub uninterp spec fn utf8_decode(bytes: Seq<u8>) -> Option<Seq<char>>;

/// The text of `bytes` decoded as UTF-8 with invalid sequences replaced by
/// U+FFFD.
pub uninterp spec fn utf8_decode_lossy(bytes: Seq<u8>) -> Seq<char>;

impl CommandOutput {
    /// Exit status of the process.
    pub closed spec fn spec_status(&self) -> ExitStatus {
        self.status
    }

    /// Captured stdout bytes.
    pub closed spec fn spec_stdout(&self) -> Seq<u8> {
        self.stdout@
    }

    /// Captured stderr bytes.
    pub closed spec fn spec_stderr(&self) -> Seq<u8> {
        self.stderr@
    }

    /// Whether stdout was truncated.
    pub closed spec fn spec_stdout_truncated(&self) -> bool {
        self.stdout_truncated
    }

    /// Whether stderr was truncated.
    pub closed spec fn spec_stderr_truncated(&self) -> bool {
        self.stderr_truncated
    }

    /// Whether stdout was read to end of file.
    pub closed spec fn spec_stdout_complete(&self) -> bool {
        self.stdout_complete
    }

    /// Whether stderr was read to end of file.
    pub closed spec fn spec_stderr_complete(&self) -> bool {
        self.stderr_complete
    }

    /// Elapsed time of the run.
    pub closed spec fn spec_elapsed(&self) -> TimeSpan {
        self.elapsed
    }

    /// Assembles an output from the status, each stream as its bytes with
    /// its truncation and completion flags, and the elapsed time.
    pub fn new(
        status: ExitStatus,
        stdout: (Vec<u8>, bool, bool),
        stderr: (Vec<u8>, bool, bool),
        elapsed: TimeSpan,
    ) -> (output: Self)
        ensures
            output.spec_status() == status,
            output.spec_stdout() == stdout.0@,
            output.spec_stdout_truncated() == stdout.1,
            output.spec_stdout_complete() == stdout.2,
            output.spec_stderr() == stderr.0@,
            output.spec_stderr_truncated() == stderr.1,
            output.spec_stderr_complete() == stderr.2,
            output.spec_elapsed() == elapsed,
    {
        let (stdout, stdout_truncated, stdout_complete) = stdout;
        let (stderr, stderr_truncated, stderr_complete) = stderr;
        CommandOutput {
            status,
            stdout,
            stderr,
            stdout_truncated,
            stderr_truncated,
            stdout_complete,
            stderr_complete,
            elapsed,
        }
    }

    /// Returns the process exit code, when it exited normally.
    pub fn exit_code(&self) -> (code: Option<i32>)
        ensures
            code == self.spec_status().spec_code(),
    {
        self.status.code()
    }

    /// Returns the exit status.
    pub fn exit_status(&self) -> (status: &ExitStatus)
        ensures
            *status == self.spec_status(),
    {
        &self.status
    }

    /// Returns the terminating signal, when the process was killed by one.
    pub fn termination_signal(&self) -> (signal: Option<i32>)
        ensures
            signal == self.spec_status().spec_signal(),
    {
        self.status.signal()
    }

    /// Returns captured stdout bytes.
    pub fn stdout(&self) -> (bytes: &[u8])
        ensures
            bytes@ == self.spec_stdout(),
    {
        self.stdout.as_slice()
    }

    /// Consumes the output and returns captured stdout bytes.
    pub fn into_stdout(self) -> (bytes: Vec<u8>)
        ensures
            bytes@ == self.spec_stdout(),
    {
        self.stdout
    }

    /// Returns captured stderr bytes.
    pub fn stderr(&self) -> (bytes: &[u8])
        ensures
            bytes@ == self.spec_stderr(),
    {
        self.stderr.as_slice()
    }

    /// Consumes the output and returns captured stderr bytes.
    pub fn into_stderr(self) -> (bytes: Vec<u8>)
        ensures
            bytes@ == self.spec_stderr(),
    {
        self.stderr
    }

    /// Whether stdout was read through end of file.
    pub fn stdout_complete(&self) -> (complete: bool)
        ensures
            complete == self.spec_stdout_complete(),
    {
        self.stdout_complete
    }

    /// Whether stderr was read through end of file.
    pub fn stderr_complete(&self) -> (complete: bool)
        ensures
            complete == self.spec_stderr_complete(),
    {
        self.stderr_complete
    }

    /// Whether stdout was truncated at its capture limit.
    pub fn stdout_truncated(&self) -> (truncated: bool)
        ensures
            truncated == self.spec_stdout_truncated(),
    {
        self.stdout_truncated
    }

    /// Whether stderr was truncated at its capture limit.
    pub fn stderr_truncated(&self) -> (truncated: bool)
        ensures
            truncated == self.spec_stderr_truncated(),
    {
        self.stderr_truncated
    }

    /// Returns the elapsed time of the run.
    pub fn elapsed(&self) -> (elapsed: TimeSpan)
        ensures
            elapsed == self.spec_elapsed(),
    {
        self.elapsed
    }

    /// Decodes stdout as UTF-8.
    pub fn stdout_text(&self) -> (text: Result<&str, Utf8Error>)
        ensures
            text.is_ok() == utf8_decode(self.spec_stdout()).is_some(),
            text.is_ok() ==> text.unwrap()@ == utf8_decode(self.spec_stdout()).unwrap(),
    {
        decode_utf8(self.stdout.as_slice())
    }

    /// Decodes stderr as UTF-8.
    pub fn stderr_text(&self) -> (text: Result<&str, Utf8Error>)
        ensures
            text.is_ok() == utf8_decode(self.spec_stderr()).is_some(),
            text.is_ok() ==> text.unwrap()@ == utf8_decode(self.spec_stderr()).unwrap(),
    {
        decode_utf8(self.stderr.as_slice())
    }

    /// Decodes stdout as UTF-8, replacing invalid sequences.
    pub fn stdout_lossy_text(&self) -> (text: String)
        ensures
            text@ == utf8_decode_lossy(self.spec_stdout()),
    {
        decode_utf8_lossy(self.stdout.as_slice())
    }

    /// Decodes stderr as UTF-8, replacing invalid sequences.
    pub fn stderr_lossy_text(&self) -> (text: String)
        ensures
            text@ == utf8_decode_lossy(self.spec_stderr()),
    {
        decode_utf8_lossy(self.stderr.as_slice())
    }
}

/// Decodes bytes with `std::str::from_utf8`.
#[verifier::external_body]
fn decode_utf8(bytes: &[u8]) -> (text: Result<&str, Utf8Error>)
    ensures
        text.is_ok() == utf8_decode(bytes@).is_some(),
        text.is_ok() ==> text.unwrap()@ == utf8_decode(bytes@).unwrap(),
{
    std::str::from_utf8(bytes)
}

/// Decodes bytes with `String::from_utf8_lossy`.
#[verifier::external_body]
pub(crate) fn decode_utf8_lossy(bytes: &[u8]) -> (text: String)
    ensures
        text@ == utf8_decode_lossy(bytes@),
{
    String::from_utf8_lossy(bytes).into_owned()
}

} // verus!
