//! Errors that the runner builds for failed process operations.

use vstd::prelude::*;
use vstd::string::StringExecFns;

use crate::stream_name;
use crate::CommandError;
use crate::CommandErrorReason;
use crate::CommandOutput;
use crate::IoFailure;
use crate::IoFailureKind;
use crate::OutputStream;
use crate::TimeSpan;

verus! {

/// The shape of an error that carries `reason` for `command`, with neither
/// output nor cleanup failures.
pub open spec fn bare_error(error: CommandError, command: Seq<char>, reason: CommandErrorReason) -> bool {
    &&& error.spec_command() == command
    &&& error.spec_reason() == reason
    &&& error.spec_output() == None::<CommandOutput>
    &&& error.spec_cleanup_failures().len() == 0
}

/// The error for a process that could not be spawned.
pub fn spawn_failed(command: &str, source: IoFailure) -> (error: CommandError)
    ensures
        bare_error(error, command@, CommandErrorReason::SpawnFailed { source }),
{
    CommandError::from_reason(command, CommandErrorReason::SpawnFailed { source }, None)
}

/// The error for a failed wait on the child.
pub fn wait_failed(command: &str, source: IoFailure) -> (error: CommandError)
    ensures
        bare_error(error, command@, CommandErrorReason::WaitFailed { source }),
{
    CommandError::from_reason(command, CommandErrorReason::WaitFailed { source }, None)
}

/// The error for a timed-out process that could not be terminated.
pub fn kill_failed(
    command: &str,
    timeout: TimeSpan,
    process_tree_source: IoFailure,
    child_source: IoFailure,
) -> (error: CommandError)
    ensures
        bare_error(error, command@, CommandErrorReason::KillFailed { timeout, process_tree_source, child_source }),
{
    CommandError::from_reason(command, CommandErrorReason::KillFailed { timeout, process_tree_source, child_source }, None)
}

/// The message of a missing output pipe: the stream's name followed by
/// " pipe was not created".
pub open spec fn missing_pipe_message(stream: OutputStream) -> Seq<char> {
    stream_name(stream) + " pipe was not created"@
}

/// The error for a child output pipe that was not created.
pub fn output_pipe_error(command: &str, stream: OutputStream) -> (error: CommandError)
    ensures
        error.spec_command() == command@,
        error.spec_output() == None::<CommandOutput>,
        error.spec_cleanup_failures().len() == 0,
        match error.spec_reason() {
            CommandErrorReason::ReadOutputFailed { stream: failed, source } => {
                &&& failed == stream
                &&& source.kind == IoFailureKind::Other
                &&& source.raw_os_error.is_none()
                &&& source.message@ == missing_pipe_message(stream)
            },
            _ => false,
        },
{
    let suffix = " pipe was not created";
    let message = String::from_str(stream.as_str()).concat(suffix);
    let source = IoFailure::new(IoFailureKind::Other, None, message);
    CommandError::from_reason(command, CommandErrorReason::ReadOutputFailed { stream, source }, None)
}

/// Takes a child's output pipe, reporting a missing pipe as an error for its
/// stream.
pub fn take_output_pipe<T>(command: &str, stream: OutputStream, pipe: Option<T>) -> (taken: Result<T, CommandError>)
    ensures
        match pipe {
            Some(value) => taken == Ok::<T, CommandError>(value),
            None => match taken {
                Ok(_) => false,
                Err(error) => {
                    &&& error.spec_command() == command@
                    &&& error.spec_output() == None::<CommandOutput>
                    &&& error.spec_cleanup_failures().len() == 0
                    &&& error.spec_reason() matches CommandErrorReason::ReadOutputFailed { stream: failed, source }
                        && failed == stream && source.message@ == missing_pipe_message(stream)
                },
            },
        },
{
    match pipe {
        Some(value) => Ok(value),
        None => Err(output_pipe_error(command, stream)),
    }
}

} // verus!
