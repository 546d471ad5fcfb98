//! The stdin writer and the output readers that run beside a child process:
//! how their outcomes become command errors, how stdin bytes are written
//! until done or cancelled, and which failures stopping them contributes.

use vstd::prelude::*;

use crate::capture::captured_of;
use crate::capture::CapturedOutput;
use crate::capture::OutputCaptureError;
use crate::collector::capture_failures;
use crate::collector::collect_output_results;
use crate::collector::collected_as;
use crate::collector::output_cleanup_failures;
use crate::collector::stdin_cleanup_failures;
use crate::collector::stream_cleanup_failures;
use crate::CommandCleanupFailure;
use crate::CommandError;
use crate::CommandErrorReason;
use crate::CommandOutput;
use crate::ExitStatus;
use crate::IoFailure;
use crate::IoFailureKind;
use crate::OutputStream;
use crate::TimeFailure;
use crate::TimeSpan;

verus! {

/// Windows error code reporting that there was no I/O to cancel.
pub const ERROR_NOT_FOUND: i32 = 1168;

/// Interprets the result of a request to cancel a helper's synchronous I/O:
/// a nonzero result, or a failure saying there was nothing to cancel, is
/// success; any other failure is kept.
pub fn cancel_result(result: i32, error: IoFailure) -> (outcome: Result<(), IoFailure>)
    ensures
        outcome == if result != 0 || error.raw_os_error == Some(ERROR_NOT_FOUND) {
            Ok::<(), IoFailure>(())
        } else {
            Err(error)
        },
{
    let not_found = match error.raw_os_error {
        Some(code) => code == ERROR_NOT_FOUND,
        None => false,
    };
    if result != 0 || not_found {
        Ok(())
    } else {
        Err(error)
    }
}

/// How the stdin helper ended.
#[derive(Debug)]
pub enum StdinHelperOutcome {
    /// No stdin bytes were configured, so no helper ran.
    NotStarted,
    /// The helper returned this result.
    Finished(Result<(), IoFailure>),
    /// The helper panicked.
    Panicked,
}

/// How an output reader ended.
#[derive(Debug)]
pub enum ReaderOutcome {
    /// The reader returned this capture outcome.
    Finished(Result<CapturedOutput, OutputCaptureError>),
    /// The reader panicked.
    Panicked,
}

/// Maps an output reader's end to its capture outcome: a panic is a read
/// failure with no output, not complete.
pub fn join_output_reader(outcome: ReaderOutcome) -> (result: Result<CapturedOutput, OutputCaptureError>)
    ensures
        match outcome {
            ReaderOutcome::Finished(finished) => result == finished,
            ReaderOutcome::Panicked => match result {
                Err(OutputCaptureError::Read { source, output }) => {
                    &&& source.kind == IoFailureKind::Other
                    &&& source.raw_os_error.is_none()
                    &&& source.message@ == "output reader thread panicked"@
                    &&& output.bytes@.len() == 0
                    &&& !output.truncated
                    &&& !output.complete
                },
                _ => false,
            },
        },
{
    match outcome {
        ReaderOutcome::Finished(finished) => finished,
        ReaderOutcome::Panicked => {
            let message = "output reader thread panicked";
            proof {
                reveal_strlit("output reader thread panicked");
            }
            Err(OutputCaptureError::Read { source: IoFailure::other(message), output: CapturedOutput::detached() })
        },
    }
}

/// The message of a stdin helper that panicked.
pub open spec fn stdin_panic_message() -> Seq<char> {
    "stdin writer thread panicked"@
}

/// Maps the stdin helper's outcome to the run's stdin result: no helper or a
/// successful one is fine, and so is a closed pipe (the child stopped
/// reading); any other failure, or a panic, is a `WriteInputFailed` error.
pub fn join_stdin_writer(command: &str, outcome: StdinHelperOutcome) -> (result: Result<(), CommandError>)
    ensures
        match outcome {
            StdinHelperOutcome::NotStarted => result.is_ok(),
            StdinHelperOutcome::Finished(Ok(())) => result.is_ok(),
            StdinHelperOutcome::Finished(Err(source)) => if source.kind == IoFailureKind::BrokenPipe {
                result.is_ok()
            } else {
                match result {
                    Err(error) => error.spec_command() == command@ && error.spec_reason()
                        == CommandErrorReason::WriteInputFailed { source } && error.spec_output().is_none()
                        && error.spec_cleanup_failures().len() == 0,
                    Ok(_) => false,
                }
            },
            StdinHelperOutcome::Panicked => match result {
                Err(error) => {
                    &&& error.spec_command() == command@
                    &&& error.spec_reason() is WriteInputFailed
                    &&& error.spec_reason()->WriteInputFailed_source.message@ == stdin_panic_message()
                    &&& error.spec_reason()->WriteInputFailed_source.kind == IoFailureKind::Other
                    &&& error.spec_output().is_none()
                    &&& error.spec_cleanup_failures().len() == 0
                },
                Ok(_) => false,
            },
        },
{
    match outcome {
        StdinHelperOutcome::NotStarted => Ok(()),
        StdinHelperOutcome::Finished(Ok(())) => Ok(()),
        StdinHelperOutcome::Finished(Err(source)) => {
            if source.kind() == IoFailureKind::BrokenPipe {
                Ok(())
            } else {
                Err(CommandError::from_reason(command, CommandErrorReason::WriteInputFailed { source }, None))
            }
        },
        StdinHelperOutcome::Panicked => {
            let message = "stdin writer thread panicked";
            proof {
                reveal_strlit("stdin writer thread panicked");
            }
            Err(
                CommandError::from_reason(
                    command,
                    CommandErrorReason::WriteInputFailed { source: IoFailure::other(message) },
                    None,
                ),
            )
        },
    }
}

/// The error for configured stdin bytes when the child has no stdin pipe.
pub fn stdin_pipe_missing(command: &str) -> (error: CommandError)
    ensures
        error.spec_command() == command@,
        error.spec_reason() is WriteInputFailed,
        error.spec_reason()->WriteInputFailed_source.message@ == "stdin pipe was not created"@,
        error.spec_output().is_none(),
        error.spec_cleanup_failures().len() == 0,
{
    let message = "stdin pipe was not created";
    proof {
        reveal_strlit("stdin pipe was not created");
    }
    CommandError::from_reason(command, CommandErrorReason::WriteInputFailed { source: IoFailure::other(message) }, None)
}

/// Maps a failure to prepare the stdin pipe to a `WriteInputFailed` error.
pub fn map_stdin_prepare_result<T>(command: &str, result: Result<T, IoFailure>) -> (mapped: Result<T, CommandError>)
    ensures
        match result {
            Ok(value) => mapped == Ok::<T, CommandError>(value),
            Err(source) => match mapped {
                Err(error) => error.spec_command() == command@ && error.spec_reason()
                    == CommandErrorReason::WriteInputFailed { source } && error.spec_output().is_none()
                    && error.spec_cleanup_failures().len() == 0,
                Ok(_) => false,
            },
        },
{
    match result {
        Ok(value) => Ok(value),
        Err(source) => Err(CommandError::from_reason(command, CommandErrorReason::WriteInputFailed { source }, None)),
    }
}

/// Maps a failure to start the stdin helper to a `StartInputThreadFailed`
/// error.
pub fn map_stdin_thread_result<T>(command: &str, result: Result<T, IoFailure>) -> (mapped: Result<T, CommandError>)
    ensures
        match result {
            Ok(value) => mapped == Ok::<T, CommandError>(value),
            Err(source) => match mapped {
                Err(error) => error.spec_command() == command@ && error.spec_reason()
                    == CommandErrorReason::StartInputThreadFailed { source } && error.spec_output().is_none()
                    && error.spec_cleanup_failures().len() == 0,
                Ok(_) => false,
            },
        },
{
    match result {
        Ok(value) => Ok(value),
        Err(source) => Err(CommandError::from_reason(command, CommandErrorReason::StartInputThreadFailed { source }, None)),
    }
}

/// Maps a failure to start an output reader to a `StartOutputThreadFailed`
/// error for that stream.
pub fn start_output_reader<T>(command: &str, stream: OutputStream, result: Result<T, IoFailure>) -> (mapped: Result<
    T,
    CommandError,
>)
    ensures
        match result {
            Ok(value) => mapped == Ok::<T, CommandError>(value),
            Err(source) => match mapped {
                Err(error) => error.spec_command() == command@ && error.spec_reason()
                    == CommandErrorReason::StartOutputThreadFailed { stream, source } && error.spec_output().is_none()
                    && error.spec_cleanup_failures().len() == 0,
                Ok(_) => false,
            },
        },
{
    match result {
        Ok(value) => Ok(value),
        Err(source) => Err(
            CommandError::from_reason(command, CommandErrorReason::StartOutputThreadFailed { stream, source }, None),
        ),
    }
}

/// A child's stdin pipe.
///
/// Implementations report what the operating system reports; nothing is
/// assumed about the values they return.
pub trait InputSink {
    /// Writes a prefix of `bytes` and returns its length.
    fn write(&mut self, bytes: &[u8]) -> Result<usize, IoFailure>;

    /// Whether writing has been asked to stop. A sink that cannot be
    /// cancelled keeps the default, which never is.
    fn is_cancelled(&self) -> (cancelled: bool)
        default_ensures
            !cancelled,
    {
        false
    }

    /// Waits until bytes may be written; `false` means the wait was
    /// cancelled. A sink that is always ready keeps the default, which
    /// returns at once with `true`.
    fn wait_writable(&mut self) -> (ready: Result<bool, IoFailure>)
        default_ensures
            ready == Ok::<bool, IoFailure>(true),
    {
        Ok(true)
    }
}

/// One call made while writing stdin, with its answer.
pub enum StdinCall {
    /// The sink's `is_cancelled` and its answer.
    Cancelled(bool),
    /// The sink's `wait_writable` and its answer.
    WaitWritable(Result<bool, IoFailure>),
    /// The sink's `write`, the bytes handed to it, and its answer.
    Write(Seq<u8>, Result<usize, IoFailure>),
}

/// A stdin sink together with the record of every call made to it, with
/// the answers.
pub struct RecordedSink<W> {
    /// The sink.
    pub sink: W,
    /// The calls made so far, in order.
    pub calls: Ghost<Seq<StdinCall>>,
}

impl<W> RecordedSink<W> {
    /// Wraps a sink with an empty record.
    pub fn new(sink: W) -> (recorded: Self)
        ensures
            recorded.sink == sink,
            recorded.calls() == Seq::<StdinCall>::empty(),
    {
        RecordedSink { sink, calls: Ghost(Seq::empty()) }
    }

    /// The calls made so far, in order.
    pub open spec fn calls(&self) -> Seq<StdinCall> {
        self.calls@
    }
}

impl<W: InputSink> RecordedSink<W> {
    /// Asks the sink whether writing was cancelled, recording the call.
    pub fn is_cancelled(&mut self) -> (cancelled: bool)
        ensures
            final(self).calls() == old(self).calls().push(StdinCall::Cancelled(cancelled)),
    {
        let cancelled = self.sink.is_cancelled();
        self.calls = Ghost(self.calls@.push(StdinCall::Cancelled(cancelled)));
        cancelled
    }

    /// Waits until the sink is writable, recording the call.
    pub fn wait_writable(&mut self) -> (ready: Result<bool, IoFailure>)
        ensures
            final(self).calls() == old(self).calls().push(StdinCall::WaitWritable(ready)),
    {
        let ready = self.sink.wait_writable();
        self.calls = Ghost(self.calls@.push(StdinCall::WaitWritable(ready)));
        ready
    }

    /// Hands `bytes` to the sink, recording the call.
    pub fn write(&mut self, bytes: &[u8]) -> (result: Result<usize, IoFailure>)
        ensures
            final(self).calls() == old(self).calls().push(StdinCall::Write(bytes@, result)),
    {
        let result = self.sink.write(bytes);
        self.calls = Ghost(self.calls@.push(StdinCall::Write(bytes@, result)));
        result
    }
}

/// How many of `total` bytes the sink accepted, as the calls show it.
pub open spec fn stdin_progress(calls: Seq<StdinCall>, total: nat) -> nat
    decreases calls.len(),
{
    if calls.len() == 0 {
        0
    } else {
        let before = stdin_progress(calls.drop_last(), total);
        match calls.last() {
            StdinCall::Write(_, Ok(accepted)) => if before + accepted >= total {
                total
            } else {
                (before + accepted) as nat
            },
            _ => before,
        }
    }
}

/// Every write was handed exactly the bytes not yet accepted.
pub open spec fn handed_remaining(calls: Seq<StdinCall>, bytes: Seq<u8>) -> bool
    decreases calls.len(),
{
    if calls.len() == 0 {
        true
    } else {
        handed_remaining(calls.drop_last(), bytes) && match calls.last() {
            StdinCall::Write(handed, _) => handed == bytes.skip(
                stdin_progress(calls.drop_last(), bytes.len()) as int,
            ),
            _ => true,
        }
    }
}

/// A write that accepted no byte.
pub open spec fn accepted_nothing(call: StdinCall) -> bool {
    match call {
        StdinCall::Write(_, Ok(accepted)) => accepted == 0,
        _ => false,
    }
}

/// Writing stopped because it was cancelled: the last call reported
/// cancellation or a cancelled wait.
pub open spec fn stdin_cancelled(calls: Seq<StdinCall>) -> bool {
    calls.len() > 0 && (calls.last() == StdinCall::Cancelled(true) || calls.last() == StdinCall::WaitWritable(
        Ok(false),
    ))
}

/// Writes `bytes` to a child's stdin until all are written or writing is
/// cancelled.
///
/// Interrupted and would-block writes are retried; a failure seen after
/// cancellation counts as cancellation; a write that accepts nothing fails
/// with `WriteZero`. Every write is handed exactly the bytes not yet
/// written. Success means every byte was accepted or writing was
/// cancelled; a failure means some bytes were not accepted.
pub fn write_stdin_until_cancelled<W: InputSink>(stdin: &mut RecordedSink<W>, bytes: &[u8]) -> (result: Result<
    (),
    IoFailure,
>)
    ensures
        bytes@.len() == 0 ==> result is Ok && final(stdin).calls() == old(stdin).calls(),
        match result {
            Err(source) => source.kind != IoFailureKind::Interrupted && source.kind != IoFailureKind::WouldBlock,
            Ok(()) => true,
        },
        exists|calls: Seq<StdinCall>|
            {
                &&& final(stdin).calls() == old(stdin).calls() + calls
                &&& #[trigger] handed_remaining(calls, bytes@)
                &&& result is Ok ==> stdin_progress(calls, bytes@.len()) == bytes@.len() || stdin_cancelled(calls)
                &&& result is Err ==> stdin_progress(calls, bytes@.len()) < bytes@.len()
                &&& stdin_progress(calls, bytes@.len()) == bytes@.len() ==> result is Ok
                &&& (calls.len() > 0 && accepted_nothing(calls.last())) ==> (result is Err && result->Err_0.kind
                    == IoFailureKind::WriteZero)
            },
{
    let ghost base = stdin.calls();
    let ghost mut log: Seq<StdinCall> = Seq::empty();
    let ghost total = bytes@.len();
    let mut offset: usize = 0;
    let mut polls: u64 = 0;
    proof {
        assert(base + log =~= base);
    }
    while offset < bytes.len() && polls < u64::MAX
        invariant
            offset <= bytes@.len(),
            total == bytes@.len(),
            base == old(stdin).calls(),
            stdin.calls() == base + log,
            offset == stdin_progress(log, total),
            handed_remaining(log, bytes@),
            log.len() > 0 ==> !accepted_nothing(log.last()),
            offset < bytes@.len() ==> !stdin_cancelled(log),
            total == 0 ==> log == Seq::<StdinCall>::empty(),
        decreases u64::MAX - polls,
    {
        polls = polls + 1;
        let cancelled = stdin.is_cancelled();
        proof {
            lemma_stdin_push(base, log, StdinCall::Cancelled(cancelled), bytes@);
            log = log.push(StdinCall::Cancelled(cancelled));
        }
        if cancelled {
            proof {
                assert(handed_remaining(log, bytes@));
            }
            return Ok(());
        }
        let ready = stdin.wait_writable();
        proof {
            lemma_stdin_push(base, log, StdinCall::WaitWritable(ready), bytes@);
            log = log.push(StdinCall::WaitWritable(ready));
        }
        proof {
            assert(handed_remaining(log, bytes@));
        }
        match ready {
            Ok(true) => {},
            Ok(false) => {
                return Ok(());
            },
            Err(source) => {
                if source.kind() == IoFailureKind::Interrupted || source.kind() == IoFailureKind::WouldBlock {
                    return Err(IoFailure::other("waiting for stdin failed"));
                }
                return Err(source);
            },
        }
        let remaining = vstd::slice::slice_subrange(bytes, offset, bytes.len());
        proof {
            assert(remaining@ =~= bytes@.skip(offset as int));
        }
        let written_result = stdin.write(remaining);
        proof {
            lemma_stdin_push(base, log, StdinCall::Write(remaining@, written_result), bytes@);
            log = log.push(StdinCall::Write(remaining@, written_result));
            assert(handed_remaining(log, bytes@));
        }
        match written_result {
            Ok(written) => {
                if written == 0 {
                    return Err(IoFailure::new(
                        IoFailureKind::WriteZero,
                        None,
                        String::from_str("stdin write made no progress"),
                    ));
                }
                if written >= bytes.len() - offset {
                    offset = bytes.len();
                } else {
                    offset = offset + written;
                }
            },
            Err(source) => {
                let kind = source.kind();
                if kind == IoFailureKind::Interrupted || kind == IoFailureKind::WouldBlock {
                } else {
                    let cancelled_now = stdin.is_cancelled();
                    proof {
                        lemma_stdin_push(base, log, StdinCall::Cancelled(cancelled_now), bytes@);
                        log = log.push(StdinCall::Cancelled(cancelled_now));
                        assert(handed_remaining(log, bytes@));
                    }
                    if cancelled_now {
                        return Ok(());
                    } else {
                        return Err(source);
                    }
                }
            },
        }
    }
    proof {
        assert(handed_remaining(log, bytes@));
        assert(base + log == stdin.calls());
    }
    if offset < bytes.len() {
        return Err(IoFailure::other("stdin writing did not finish"));
    }
    Ok(())
}

/// Extending a stdin record by one call unfolds its summaries by one step.
proof fn lemma_stdin_push(base: Seq<StdinCall>, calls: Seq<StdinCall>, call: StdinCall, bytes: Seq<u8>)
    ensures
        (base + calls).push(call) == base + calls.push(call),
        calls.push(call).drop_last() == calls,
        calls.push(call).last() == call,
        stdin_progress(calls.push(call), bytes.len()) == match call {
            StdinCall::Write(_, Ok(accepted)) => if stdin_progress(calls, bytes.len()) + accepted >= bytes.len() {
                bytes.len()
            } else {
                (stdin_progress(calls, bytes.len()) + accepted) as nat
            },
            _ => stdin_progress(calls, bytes.len()),
        },
        handed_remaining(calls.push(call), bytes) == (handed_remaining(calls, bytes) && match call {
            StdinCall::Write(handed, _) => handed == bytes.skip(stdin_progress(calls, bytes.len()) as int),
            _ => true,
        }),
{
    assert(calls.push(call).drop_last() =~= calls);
    assert((base + calls).push(call) =~= base + calls.push(call));
}

/// What to do with a helper that was asked to stop.
#[derive(Clone, Copy, Debug, PartialEq, Eq, Structural)]
pub enum HelperDisposition {
    /// Wait for the helper and take what it reports.
    Join,
    /// Leave the helper running; it reports nothing.
    Detach,
}

/// Decides what to do with a helper that was asked to stop: a helper whose
/// interruption succeeded is joined; one whose interruption failed is joined
/// only when it finished by the confirmation deadline, and detached
/// otherwise.
pub fn helper_disposition(cancellation_failed: bool, finished_by_deadline: bool) -> (disposition: HelperDisposition)
    ensures
        disposition == if cancellation_failed && !finished_by_deadline {
            HelperDisposition::Detach
        } else {
            HelperDisposition::Join
        },
{
    if cancellation_failed && !finished_by_deadline {
        HelperDisposition::Detach
    } else {
        HelperDisposition::Join
    }
}

/// The failures of interrupting the helpers, in helper order: stdout
/// reader, stderr reader, stdin writer.
pub open spec fn cancellation_failures(
    stdout: Option<IoFailure>,
    stderr: Option<IoFailure>,
    stdin: Option<IoFailure>,
) -> Seq<CommandCleanupFailure> {
    (match stdout {
        Some(source) => seq![CommandCleanupFailure::StdoutCancellation { source }],
        None => seq![],
    }) + (match stderr {
        Some(source) => seq![CommandCleanupFailure::StderrCancellation { source }],
        None => seq![],
    }) + (match stdin {
        Some(source) => seq![CommandCleanupFailure::StdinCancellation { source }],
        None => seq![],
    })
}

/// Lists the failures of interrupting the helpers, in helper order.
pub fn helper_cancellation_failures(
    stdout: Option<IoFailure>,
    stderr: Option<IoFailure>,
    stdin: Option<IoFailure>,
) -> (failures: Vec<CommandCleanupFailure>)
    ensures
        failures@ == cancellation_failures(stdout, stderr, stdin),
{
    let mut failures: Vec<CommandCleanupFailure> = Vec::new();
    match stdout {
        Some(source) => failures.push(CommandCleanupFailure::StdoutCancellation { source }),
        None => {},
    }
    match stderr {
        Some(source) => failures.push(CommandCleanupFailure::StderrCancellation { source }),
        None => {},
    }
    match stdin {
        Some(source) => failures.push(CommandCleanupFailure::StdinCancellation { source }),
        None => {},
    }
    proof {
        assert(failures@ =~= cancellation_failures(stdout, stderr, stdin));
    }
    failures
}

/// The cleanup failures of a reader that may not have reported back.
pub open spec fn joined_stream_failures(
    stream: OutputStream,
    result: Option<Result<CapturedOutput, OutputCaptureError>>,
) -> Seq<CommandCleanupFailure> {
    match result {
        Some(result) => stream_cleanup_failures(stream, capture_failures(result)),
        None => seq![],
    }
}

/// The cleanup failures of a stdin helper that may not have reported back.
pub open spec fn joined_stdin_failures(result: Option<Result<(), CommandError>>) -> Seq<CommandCleanupFailure> {
    match result {
        Some(result) => stdin_cleanup_failures(result),
        None => seq![],
    }
}

/// The cleanup failures of stopping the helpers without collecting their
/// output: the cancellation failures, then every failure the helpers that
/// reported back recorded (stdout, stderr, stdin).
pub fn cancel_and_join_failures(
    cancellation: Vec<CommandCleanupFailure>,
    stdout_result: Option<Result<CapturedOutput, OutputCaptureError>>,
    stderr_result: Option<Result<CapturedOutput, OutputCaptureError>>,
    stdin_result: Option<Result<(), CommandError>>,
) -> (failures: Vec<CommandCleanupFailure>)
    ensures
        failures@ == cancellation@ + joined_stream_failures(OutputStream::Stdout, stdout_result)
            + joined_stream_failures(OutputStream::Stderr, stderr_result) + joined_stdin_failures(stdin_result),
{
    let mut failures = cancellation;
    match stdout_result {
        Some(result) => {
            let (_, stream_failures) = crate::collector::split_output_result(result);
            let mut cleanup = output_cleanup_failures(OutputStream::Stdout, stream_failures);
            failures.append(&mut cleanup);
        },
        None => {},
    }
    match stderr_result {
        Some(result) => {
            let (_, stream_failures) = crate::collector::split_output_result(result);
            let mut cleanup = output_cleanup_failures(OutputStream::Stderr, stream_failures);
            failures.append(&mut cleanup);
        },
        None => {},
    }
    match stdin_result {
        Some(Err(error)) => match error.into_cleanup_failure() {
            Some(failure) => failures.push(failure),
            None => {},
        },
        _ => {},
    }
    proof {
        assert(failures@ =~= cancellation@ + joined_stream_failures(OutputStream::Stdout, stdout_result)
            + joined_stream_failures(OutputStream::Stderr, stderr_result) + joined_stdin_failures(stdin_result));
    }
    failures
}

/// A reader's outcome when it did not report back: no bytes, not
/// truncated, not complete.
pub open spec fn is_detached(result: Result<CapturedOutput, OutputCaptureError>) -> bool {
    match result {
        Ok(output) => output.bytes@.len() == 0 && !output.truncated && !output.complete,
        Err(_) => false,
    }
}

/// The outcome that stands for a reader's report: the report itself, or a
/// detached outcome when it did not report back.
pub open spec fn stands_for(
    reported: Option<Result<CapturedOutput, OutputCaptureError>>,
    used: Result<CapturedOutput, OutputCaptureError>,
) -> bool {
    match reported {
        Some(result) => used == result,
        None => is_detached(used),
    }
}

/// A stdin helper's outcome, counting one that did not report back as
/// finished.
pub open spec fn stdin_or_finished(reported: Option<Result<(), CommandError>>) -> Result<(), CommandError> {
    match reported {
        Some(result) => result,
        None => Ok(()),
    }
}

/// Collects the helpers' outcomes after they were interrupted: a reader that
/// did not report back counts as an empty, incomplete capture, and a stdin
/// helper that did not report back counts as finished.
pub fn collect_after_cancellation(
    command: &str,
    status: ExitStatus,
    elapsed_result: Result<TimeSpan, TimeFailure>,
    stdout_result: Option<Result<CapturedOutput, OutputCaptureError>>,
    stderr_result: Option<Result<CapturedOutput, OutputCaptureError>>,
    stdin_result: Option<Result<(), CommandError>>,
) -> (result: Result<CommandOutput, CommandError>)
    ensures
        exists|stdout: Result<CapturedOutput, OutputCaptureError>, stderr: Result<CapturedOutput, OutputCaptureError>|
            {
                &&& stands_for(stdout_result, stdout)
                &&& stands_for(stderr_result, stderr)
                &&& #[trigger] collected_as(
                    result,
                    command@,
                    status,
                    elapsed_result,
                    stdout,
                    stderr,
                    stdin_or_finished(stdin_result),
                )
            },
{
    let stdout = match stdout_result {
        Some(result) => result,
        None => Ok(CapturedOutput::detached()),
    };
    let stderr = match stderr_result {
        Some(result) => result,
        None => Ok(CapturedOutput::detached()),
    };
    let stdin = match stdin_result {
        Some(result) => result,
        None => Ok(()),
    };
    let ghost used_stdout = stdout;
    let ghost used_stderr = stderr;
    let result = collect_output_results(command, status, elapsed_result, stdout, stderr, stdin);
    proof {
        assert(stands_for(stdout_result, used_stdout));
        assert(stands_for(stderr_result, used_stderr));
    }
    result
}

} // verus!
