//! The two captured output streams of a child process.

use vstd::prelude::*;

verus! {

/// A captured child-process output stream.
#[derive(Clone, Copy, Debug, PartialEq, Eq, Structural)]
pub enum OutputStream {
    /// Standard output.
    Stdout,
    /// Standard error.
    Stderr,
}

/// The lower-case name of a stream as it appears in diagnostics.
pub open spec fn stream_name(stream: OutputStream) -> Seq<char> {
    match stream {
        OutputStream::Stdout => seq!['s', 't', 'd', 'o', 'u', 't'],
        OutputStream::Stderr => seq!['s', 't', 'd', 'e', 'r', 'r'],
    }
}

impl OutputStream {
    /// Returns the lower-case stream name, `stdout` or `stderr`.
    pub fn as_str(&self) -> (name: &'static str)
        ensures
            name@ == stream_name(*self),
    {
        match self {
            OutputStream::Stdout => {
                let name = "stdout";
                proof {
                    reveal_strlit("stdout");
                }
                name
            },
            OutputStream::Stderr => {
                let name = "stderr";
                proof {
                    reveal_strlit("stderr");
                }
                name
            },
        }
    }
}

} // verus!
