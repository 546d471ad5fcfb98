//! Assembling a command's result from its exit status, elapsed time and the
//! outcomes of its stdout, stderr and stdin helpers, choosing the primary
//! failure and keeping every other failure as a cleanup failure.

use vstd::prelude::*;

use crate::capture::captured_of;
use crate::capture::CapturedOutput;
use crate::capture::OutputCaptureError;
use crate::capture::OutputCaptureFailure;
use crate::command_cleanup_failure::canonical_order;
use crate::command_error::helper_cleanup_prefix;
use crate::command_error_reason::reason_kind;
use crate::CommandCleanupFailure;
use crate::CommandError;
use crate::CommandErrorKind;
use crate::CommandErrorReason;
use crate::CommandOutput;
use crate::ExitStatus;
use crate::OutputStream;
use crate::TimeFailure;
use crate::TimeSpan;

verus! {

/// The failures recorded by a capture outcome, in the order they happened.
pub open spec fn capture_failures(result: Result<CapturedOutput, OutputCaptureError>) -> Seq<
    OutputCaptureFailure,
> {
    match result {
        Ok(_) => seq![],
        Err(OutputCaptureError::Read { source, .. }) => seq![OutputCaptureFailure::Read { source }],
        Err(OutputCaptureError::Write { path, source, .. }) => seq![
            OutputCaptureFailure::Write { path, source },
        ],
        Err(OutputCaptureError::ReadAfterWrite { path, write_source, read_source, .. }) => seq![
            OutputCaptureFailure::Write { path, source: write_source },
            OutputCaptureFailure::Read { source: read_source },
        ],
    }
}

/// The cleanup failure a stream failure becomes.
pub open spec fn stream_cleanup_failure(stream: OutputStream, failure: OutputCaptureFailure) -> CommandCleanupFailure {
    match (stream, failure) {
        (OutputStream::Stdout, OutputCaptureFailure::Read { source }) => CommandCleanupFailure::StdoutRead { source },
        (OutputStream::Stderr, OutputCaptureFailure::Read { source }) => CommandCleanupFailure::StderrRead { source },
        (OutputStream::Stdout, OutputCaptureFailure::Write { path, source }) => CommandCleanupFailure::StdoutWrite { path, source },
        (OutputStream::Stderr, OutputCaptureFailure::Write { path, source }) => CommandCleanupFailure::StderrWrite { path, source },
    }
}

/// The cleanup failures a sequence of stream failures becomes.
pub open spec fn stream_cleanup_failures(stream: OutputStream, failures: Seq<OutputCaptureFailure>) -> Seq<
    CommandCleanupFailure,
> {
    failures.map_values(|failure: OutputCaptureFailure| stream_cleanup_failure(stream, failure))
}

/// The primary reason a stream failure becomes.
pub open spec fn stream_failure_reason(stream: OutputStream, failure: OutputCaptureFailure) -> CommandErrorReason {
    match failure {
        OutputCaptureFailure::Read { source } => CommandErrorReason::ReadOutputFailed { stream, source },
        OutputCaptureFailure::Write { path, source } => CommandErrorReason::WriteOutputFailed { stream, path, source },
    }
}

/// The cleanup failures a stdin helper outcome contributes.
pub open spec fn stdin_cleanup_failures(stdin_result: Result<(), CommandError>) -> Seq<CommandCleanupFailure> {
    match stdin_result {
        Ok(()) => seq![],
        Err(error) => helper_cleanup_prefix(error.spec_reason()),
    }
}

/// `output` holds the given status, both captured streams and the elapsed
/// time.
pub open spec fn output_from_captures(
    output: CommandOutput,
    status: ExitStatus,
    stdout: CapturedOutput,
    stderr: CapturedOutput,
    elapsed: TimeSpan,
) -> bool {
    &&& output.spec_status() == status
    &&& output.spec_stdout() == stdout.bytes@
    &&& output.spec_stdout_truncated() == stdout.truncated
    &&& output.spec_stdout_complete() == stdout.complete
    &&& output.spec_stderr() == stderr.bytes@
    &&& output.spec_stderr_truncated() == stderr.truncated
    &&& output.spec_stderr_complete() == stderr.complete
    &&& output.spec_elapsed() == elapsed
}

/// Splits a capture outcome into its output and its failures.
pub fn split_output_result(result: Result<CapturedOutput, OutputCaptureError>) -> (split: (
    CapturedOutput,
    Vec<OutputCaptureFailure>,
))
    ensures
        split.0 == captured_of(result),
        split.1@ == capture_failures(result),
{
    match result {
        Ok(output) => (output, Vec::new()),
        Err(OutputCaptureError::Read { source, output }) => {
            let mut failures = Vec::new();
            failures.push(OutputCaptureFailure::Read { source });
            (output, failures)
        },
        Err(OutputCaptureError::Write { path, source, output }) => {
            let mut failures = Vec::new();
            failures.push(OutputCaptureFailure::Write { path, source });
            (output, failures)
        },
        Err(OutputCaptureError::ReadAfterWrite { path, write_source, read_source, output }) => {
            let mut failures = Vec::new();
            failures.push(OutputCaptureFailure::Write { path, source: write_source });
            failures.push(OutputCaptureFailure::Read { source: read_source });
            proof {
                assert(failures@ =~= capture_failures(result));
            }
            (output, failures)
        },
    }
}

/// Converts one stream failure into its cleanup representation.
pub fn output_cleanup_failure(stream: OutputStream, failure: OutputCaptureFailure) -> (cleanup: CommandCleanupFailure)
    ensures
        cleanup == stream_cleanup_failure(stream, failure),
{
    match (stream, failure) {
        (OutputStream::Stdout, OutputCaptureFailure::Read { source }) => CommandCleanupFailure::StdoutRead { source },
        (OutputStream::Stderr, OutputCaptureFailure::Read { source }) => CommandCleanupFailure::StderrRead { source },
        (OutputStream::Stdout, OutputCaptureFailure::Write { path, source }) => CommandCleanupFailure::StdoutWrite { path, source },
        (OutputStream::Stderr, OutputCaptureFailure::Write { path, source }) => CommandCleanupFailure::StderrWrite { path, source },
    }
}

/// Converts stream failures into cleanup failures, keeping their order.
pub fn output_cleanup_failures(stream: OutputStream, failures: Vec<OutputCaptureFailure>) -> (cleanup: Vec<
    CommandCleanupFailure,
>)
    ensures
        cleanup@ == stream_cleanup_failures(stream, failures@),
{
    let ghost all = failures@;
    let mut rest = failures;
    let mut cleanup: Vec<CommandCleanupFailure> = Vec::new();
    let ghost mut done: int = 0;
    while rest.len() > 0
        invariant
            0 <= done <= all.len(),
            rest@ == all.subrange(done, all.len() as int),
            cleanup@ == stream_cleanup_failures(stream, all.subrange(0, done)),
        decreases rest.len(),
    {
        let failure = rest.remove(0);
        proof {
            assert(failure == all[done]);
            assert(stream_cleanup_failures(stream, all.subrange(0, done + 1)) =~= stream_cleanup_failures(
                stream,
                all.subrange(0, done),
            ).push(stream_cleanup_failure(stream, failure)));
            done = done + 1;
            assert(rest@ =~= all.subrange(done, all.len() as int));
        }
        cleanup.push(output_cleanup_failure(stream, failure));
    }
    proof {
        assert(all.subrange(0, done) =~= all);
    }
    cleanup
}

/// The primary error of a stream failure, retaining both streams' output.
pub fn map_output_reader_error(
    command: &str,
    status: ExitStatus,
    elapsed: TimeSpan,
    stream: OutputStream,
    failure: OutputCaptureFailure,
    failed_output: CapturedOutput,
    other_output: CapturedOutput,
) -> (error: CommandError)
    ensures
        error.spec_command() == command@,
        error.spec_reason() == stream_failure_reason(stream, failure),
        error.spec_cleanup_failures() == Seq::<CommandCleanupFailure>::empty(),
        error.spec_output().is_some(),
        match stream {
            OutputStream::Stdout => output_from_captures(
                error.spec_output().unwrap(),
                status,
                failed_output,
                other_output,
                elapsed,
            ),
            OutputStream::Stderr => output_from_captures(
                error.spec_output().unwrap(),
                status,
                other_output,
                failed_output,
                elapsed,
            ),
        },
{
    let (stdout, stderr) = match stream {
        OutputStream::Stdout => (failed_output, other_output),
        OutputStream::Stderr => (other_output, failed_output),
    };
    let output = CommandOutput::new(
        status,
        (stdout.bytes, stdout.truncated, stdout.complete),
        (stderr.bytes, stderr.truncated, stderr.complete),
        elapsed,
    );
    let reason = match failure {
        OutputCaptureFailure::Read { source } => CommandErrorReason::ReadOutputFailed { stream, source },
        OutputCaptureFailure::Write { path, source } => CommandErrorReason::WriteOutputFailed {
            stream,
            path,
            source,
        },
    };
    CommandError::from_reason(command, reason, Some(Box::new(output)))
}

/// Converts a stdin helper outcome into the cleanup failures it contributes.
fn stdin_cleanup(stdin_result: Result<(), CommandError>) -> (cleanup: Vec<CommandCleanupFailure>)
    ensures
        cleanup@ == stdin_cleanup_failures(stdin_result),
{
    let mut cleanup = Vec::new();
    match stdin_result {
        Ok(()) => {},
        Err(error) => match error.into_cleanup_failure() {
            Some(failure) => cleanup.push(failure),
            None => {},
        },
    }
    proof {
        assert(cleanup@ =~= stdin_cleanup_failures(stdin_result));
    }
    cleanup
}

/// What collecting the helpers' outcomes gives (see
/// [`collect_output_results`]).
pub open spec fn collected_as(
    result: Result<CommandOutput, CommandError>,
    command: Seq<char>,
    status: ExitStatus,
    elapsed_result: Result<TimeSpan, TimeFailure>,
    stdout_result: Result<CapturedOutput, OutputCaptureError>,
    stderr_result: Result<CapturedOutput, OutputCaptureError>,
    stdin_result: Result<(), CommandError>,
) -> bool {
    let stdout_failures = capture_failures(stdout_result);
    let stderr_failures = capture_failures(stderr_result);
    let stdout = captured_of(stdout_result);
    let stderr = captured_of(stderr_result);
    match elapsed_result {
        Err(source) => match result {
            Err(error) => {
                &&& error.spec_command() == command
                &&& error.spec_reason() == CommandErrorReason::TimeFailed { source }
                &&& error.spec_output().is_none()
                &&& error.spec_cleanup_failures() == canonical_order(
                    stream_cleanup_failures(OutputStream::Stdout, stdout_failures)
                        + stream_cleanup_failures(OutputStream::Stderr, stderr_failures)
                        + stdin_cleanup_failures(stdin_result),
                )
            },
            Ok(_) => false,
        },
        Ok(elapsed) => if stdout_failures.len() > 0 {
            match result {
                Err(error) => {
                    &&& error.spec_command() == command
                    &&& error.spec_reason() == stream_failure_reason(
                        OutputStream::Stdout,
                        stdout_failures[0],
                    )
                    &&& error.spec_output().is_some()
                    &&& output_from_captures(
                        error.spec_output().unwrap(),
                        status,
                        stdout,
                        stderr,
                        elapsed,
                    )
                    &&& error.spec_cleanup_failures() == canonical_order(
                        stream_cleanup_failures(OutputStream::Stdout, stdout_failures.drop_first())
                            + stream_cleanup_failures(OutputStream::Stderr, stderr_failures)
                            + stdin_cleanup_failures(stdin_result),
                    )
                },
                Ok(_) => false,
            }
        } else if stderr_failures.len() > 0 {
            match result {
                Err(error) => {
                    &&& error.spec_command() == command
                    &&& error.spec_reason() == stream_failure_reason(
                        OutputStream::Stderr,
                        stderr_failures[0],
                    )
                    &&& error.spec_output().is_some()
                    &&& output_from_captures(
                        error.spec_output().unwrap(),
                        status,
                        stdout,
                        stderr,
                        elapsed,
                    )
                    &&& error.spec_cleanup_failures() == canonical_order(
                        stream_cleanup_failures(OutputStream::Stderr, stderr_failures.drop_first())
                            + stdin_cleanup_failures(stdin_result),
                    )
                },
                Ok(_) => false,
            }
        } else {
            match stdin_result {
                Ok(()) => match result {
                    Ok(output) => output_from_captures(output, status, stdout, stderr, elapsed),
                    Err(_) => false,
                },
                Err(stdin_error) => match result {
                    Err(error) => if stdin_error.spec_kind() == CommandErrorKind::WriteInputFailed {
                        &&& error.spec_command() == stdin_error.spec_command()
                        &&& error.spec_reason() == stdin_error.spec_reason()
                        &&& error.spec_cleanup_failures() == stdin_error.spec_cleanup_failures()
                        &&& error.spec_output().is_some()
                        &&& output_from_captures(
                            error.spec_output().unwrap(),
                            status,
                            stdout,
                            stderr,
                            elapsed,
                        )
                    } else {
                        error == stdin_error
                    },
                    Ok(_) => false,
                },
            }
        },
    }
}

/// Assembles a command's result from the outcomes of its helpers.
///
/// A clock failure is primary over every helper failure; otherwise the
/// first stdout failure, then the first stderr failure is primary and
/// retains the output of both streams. Every other helper failure is kept
/// as a cleanup failure in canonical order. Without helper failures the
/// output is returned, unless the stdin helper failed: a stdin write
/// failure keeps the completed output, any other stdin failure is returned
/// as it is.
pub fn collect_output_results(
    command: &str,
    status: ExitStatus,
    elapsed_result: Result<TimeSpan, TimeFailure>,
    stdout_result: Result<CapturedOutput, OutputCaptureError>,
    stderr_result: Result<CapturedOutput, OutputCaptureError>,
    stdin_result: Result<(), CommandError>,
) -> (result: Result<CommandOutput, CommandError>)
    ensures
        collected_as(result, command@, status, elapsed_result, stdout_result, stderr_result, stdin_result),
{
    let (stdout, stdout_failures) = split_output_result(stdout_result);
    let (stderr, stderr_failures) = split_output_result(stderr_result);
    match elapsed_result {
        Err(source) => {
            let mut cleanup = output_cleanup_failures(OutputStream::Stdout, stdout_failures);
            let mut stderr_cleanup = output_cleanup_failures(OutputStream::Stderr, stderr_failures);
            let mut stdin_failures = stdin_cleanup(stdin_result);
            cleanup.append(&mut stderr_cleanup);
            cleanup.append(&mut stdin_failures);
            let error = CommandError::from_reason(command, CommandErrorReason::TimeFailed { source }, None);
            let ghost listed = cleanup@;
            let error = error.with_cleanup_failures(cleanup);
            proof {
                assert(Seq::<CommandCleanupFailure>::empty() + listed =~= listed);
            }
            Err(error)
        },
        Ok(elapsed) => {
            if stdout_failures.len() > 0 {
                let mut stdout_failures = stdout_failures;
                let ghost all_stdout = stdout_failures@;
                let first = stdout_failures.remove(0);
                proof {
                    assert(stdout_failures@ =~= all_stdout.drop_first());
                }
                let mut cleanup = output_cleanup_failures(OutputStream::Stdout, stdout_failures);
                let mut stderr_cleanup = output_cleanup_failures(OutputStream::Stderr, stderr_failures);
                let mut stdin_failures = stdin_cleanup(stdin_result);
                cleanup.append(&mut stderr_cleanup);
                cleanup.append(&mut stdin_failures);
                let ghost listed = cleanup@;
                let error = map_output_reader_error(
                    command,
                    status,
                    elapsed,
                    OutputStream::Stdout,
                    first,
                    stdout,
                    stderr,
                );
                let error = error.with_cleanup_failures(cleanup);
                proof {
                    assert(Seq::<CommandCleanupFailure>::empty() + listed =~= listed);
                }
                return Err(error);
            }
            if stderr_failures.len() > 0 {
                let mut stderr_failures = stderr_failures;
                let ghost all_stderr = stderr_failures@;
                let first = stderr_failures.remove(0);
                proof {
                    assert(stderr_failures@ =~= all_stderr.drop_first());
                }
                let mut cleanup = output_cleanup_failures(OutputStream::Stderr, stderr_failures);
                let mut stdin_failures = stdin_cleanup(stdin_result);
                cleanup.append(&mut stdin_failures);
                let ghost listed = cleanup@;
                let error = map_output_reader_error(
                    command,
                    status,
                    elapsed,
                    OutputStream::Stderr,
                    first,
                    stderr,
                    stdout,
                );
                let error = error.with_cleanup_failures(cleanup);
                proof {
                    assert(Seq::<CommandCleanupFailure>::empty() + listed =~= listed);
                }
                return Err(error);
            }
            let output = CommandOutput::new(
                status,
                (stdout.bytes, stdout.truncated, stdout.complete),
                (stderr.bytes, stderr.truncated, stderr.complete),
                elapsed,
            );
            match stdin_result {
                Ok(()) => Ok(output),
                Err(error) => {
                    if error.kind() == CommandErrorKind::WriteInputFailed {
                        Err(error.with_output(output))
                    } else {
                        Err(error)
                    }
                },
            }
        },
    }
}

} // verus!
