use std::path::PathBuf;

use qubit_command::capture::CapturedOutput;
use qubit_command::capture::OutputCaptureError;
use qubit_command::error_mapping::kill_failed;
use qubit_command::error_mapping::output_pipe_error;
use qubit_command::error_mapping::spawn_failed;
use qubit_command::error_mapping::take_output_pipe;
use qubit_command::error_mapping::wait_failed;
use qubit_command::helpers::cancel_and_join_failures;
use qubit_command::helpers::collect_after_cancellation;
use qubit_command::helpers::helper_cancellation_failures;
use qubit_command::helpers::join_output_reader;
use qubit_command::helpers::join_stdin_writer;
use qubit_command::helpers::map_stdin_thread_result;
use qubit_command::helpers::ReaderOutcome;
use qubit_command::command_error::ErrorSource;
use qubit_command::helpers::stdin_pipe_missing;
use qubit_command::helpers::StdinHelperOutcome;
use qubit_command::CommandCleanupFailure;
use qubit_command::CommandError;
use qubit_command::CommandErrorKind;
use qubit_command::CommandErrorReason;
use qubit_command::CommandOutput;
use qubit_command::ExitStatus;
use qubit_command::IoFailure;
use qubit_command::IoFailureKind;
use qubit_command::OutputStream;
use qubit_command::TimeFailure;
use qubit_command::TimeSpan;

/// Unwraps a value whose failure side has no `Debug` rendering.
trait Must<T> {
    fn must(self, message: &str) -> T;
}

impl<T> Must<T> for Option<T> {
    fn must(self, message: &str) -> T {
        match self {
            Some(value) => value,
            None => panic!("{message}"),
        }
    }
}

impl<T, E> Must<T> for Result<T, E> {
    fn must(self, message: &str) -> T {
        match self {
            Ok(value) => value,
            Err(_) => panic!("{message}"),
        }
    }
}


fn status() -> ExitStatus {
    ExitStatus::exited(0)
}

fn other(message: &str) -> IoFailure {
    IoFailure::new(IoFailureKind::Other, None, message.to_string())
}

fn io_error() -> IoFailure {
    other("injected error source")
}

#[test]
fn test_finalization_preserves_timeout_and_partial_output() {
    let output = CommandOutput::new(
        status(),
        (b"prefix".to_vec(), false, false),
        (Vec::new(), false, true),
        TimeSpan::from_secs(1),
    );
    let secondary = CommandError::from_reason(
        "command",
        CommandErrorReason::ReadOutputFailed { stream: OutputStream::Stdout, source: other("read failed") },
        Some(Box::new(output)),
    );
    let primary = CommandError::from_reason("command", CommandErrorReason::TimedOut { timeout: TimeSpan::from_secs(1) }, None);
    let error = primary.with_finalization_error(secondary);
    assert_eq!(error.kind(), CommandErrorKind::TimedOut);
    let output = error.output().must("partial output must survive finalization failure");
    assert_eq!(output.stdout(), b"prefix");
    assert!(!output.stdout_complete());
    assert!(matches!(error.cleanup_failures(), [CommandCleanupFailure::StdoutRead { .. }]));
}

#[test]
fn test_finalization_retains_time_failure_after_cancellation() {
    let secondary = CommandError::from_reason(
        "command",
        CommandErrorReason::TimeFailed { source: TimeFailure::new("instant overflow") },
        None,
    )
    .with_cleanup_failures(vec![CommandCleanupFailure::Stdin { source: other("stdin failed") }]);
    let primary = CommandError::from_reason("command", CommandErrorReason::Cancelled, None);
    let error = primary.with_finalization_error(secondary);
    assert_eq!(error.kind(), CommandErrorKind::Cancelled);
    assert!(error.output().is_none());
    assert!(matches!(
        error.cleanup_failures(),
        [CommandCleanupFailure::Time { .. }, CommandCleanupFailure::Stdin { .. }]
    ));
}

#[test]
fn test_finalization_keeps_existing_primary_output() {
    let primary_output = CommandOutput::new(
        status(),
        (b"primary".to_vec(), false, true),
        (Vec::new(), false, true),
        TimeSpan::from_secs(2),
    );
    let secondary_output = CommandOutput::new(
        status(),
        (b"secondary".to_vec(), false, false),
        (Vec::new(), false, true),
        TimeSpan::from_secs(3),
    );
    let primary = CommandError::from_reason("command", CommandErrorReason::Cancelled, Some(Box::new(primary_output)));
    let secondary = CommandError::from_reason(
        "command",
        CommandErrorReason::ReadOutputFailed { stream: OutputStream::Stdout, source: other("read failed") },
        Some(Box::new(secondary_output)),
    );
    let error = primary.with_finalization_error(secondary);
    assert_eq!(error.kind(), CommandErrorKind::Cancelled);
    let output = error.output().must("primary output must be retained");
    assert_eq!(output.stdout(), b"primary");
    assert!(output.stdout_complete());
    assert_eq!(output.elapsed(), TimeSpan::from_secs(2));
    assert!(matches!(error.cleanup_failures(), [CommandCleanupFailure::StdoutRead { .. }]));
}

fn every_reason() -> Vec<CommandErrorReason> {
    vec![
        CommandErrorReason::SpawnFailed { source: io_error() },
        CommandErrorReason::WaitFailed { source: io_error() },
        CommandErrorReason::CancelledBeforeStart,
        CommandErrorReason::KillFailed {
            timeout: TimeSpan::from_secs(1),
            process_tree_source: io_error(),
            child_source: io_error(),
        },
        CommandErrorReason::ReadOutputFailed { stream: OutputStream::Stdout, source: io_error() },
        CommandErrorReason::OpenInputFailed { path: PathBuf::from("input"), source: io_error() },
        CommandErrorReason::NonRegularInputFile { path: PathBuf::from("input") },
        CommandErrorReason::OpenOutputFailed {
            stream: OutputStream::Stdout,
            path: PathBuf::from("output"),
            source: io_error(),
        },
        CommandErrorReason::NonRegularOutputFile { stream: OutputStream::Stderr, path: PathBuf::from("output") },
        CommandErrorReason::InputOutputConflict {
            input_path: PathBuf::from("input"),
            output_stream: OutputStream::Stdout,
            output_path: PathBuf::from("output"),
        },
        CommandErrorReason::OutputFilesConflict {
            stdout_path: PathBuf::from("stdout"),
            stderr_path: PathBuf::from("stderr"),
        },
        CommandErrorReason::InspectIoFileFailed { path: PathBuf::from("output"), source: io_error() },
        CommandErrorReason::StartInputThreadFailed { source: io_error() },
        CommandErrorReason::StartOutputThreadFailed { stream: OutputStream::Stderr, source: io_error() },
        CommandErrorReason::TimeFailed { source: TimeFailure::new("backend test unavailable") },
        CommandErrorReason::WriteInputFailed { source: io_error() },
        CommandErrorReason::WriteOutputFailed {
            stream: OutputStream::Stdout,
            path: PathBuf::from("output"),
            source: io_error(),
        },
        CommandErrorReason::TimedOut { timeout: TimeSpan::from_secs(1) },
        CommandErrorReason::Cancelled,
        CommandErrorReason::CancelFailed { process_tree_source: io_error(), child_source: io_error() },
        CommandErrorReason::OutputTruncated,
        CommandErrorReason::UnexpectedExit { exit_code: Some(9), expected: vec![0] },
    ]
}

#[test]
fn test_command_error_formats_every_reason_variant() {
    for reason in every_reason() {
        let reason_debug = reason.debug_text();
        let error = CommandError::from_reason("command", reason, None);
        let display = error.message();
        let debug = error.debug_text();

        assert!(!reason_debug.is_empty());
        assert!(display.contains("command"));
        assert!(debug.contains(&display) || debug.contains("command"));
        let _ = error.kind();
        let _ = error.reason();
        let _ = error.output();
        let _ = error.exit_code();
        let _ = error.is_unexpected_exit();
    }
}

#[test]
fn test_command_error_formats_and_exposes_every_cleanup_variant() {
    let error = CommandError::from_reason("command", CommandErrorReason::Cancelled, None).with_cleanup_failures(vec![
        CommandCleanupFailure::Wait { source: io_error() },
        CommandCleanupFailure::ProcessTreeTermination { source: io_error() },
        CommandCleanupFailure::ChildTermination { source: io_error() },
        CommandCleanupFailure::Stdin { source: io_error() },
        CommandCleanupFailure::StdinCancellation { source: io_error() },
        CommandCleanupFailure::StdoutCancellation { source: io_error() },
        CommandCleanupFailure::StderrCancellation { source: io_error() },
        CommandCleanupFailure::StdoutRead { source: io_error() },
        CommandCleanupFailure::StdoutWrite { path: PathBuf::from("stdout"), source: io_error() },
        CommandCleanupFailure::StderrRead { source: io_error() },
        CommandCleanupFailure::StderrWrite { path: PathBuf::from("stderr"), source: io_error() },
    ]);

    assert_eq!(error.cleanup_failures().len(), 11);
    assert!(error.process_tree_source().is_some());
    assert!(error.child_source().is_some());
    assert!(error.message().contains("11 cleanup failure(s)"));
    for failure in error.cleanup_failures() {
        assert!(!failure.debug_text().is_empty());
    }
}

#[test]
fn messages_follow_the_documented_wording() {
    let spawn = spawn_failed("ls -l", other("not found"));
    assert_eq!(spawn.message(), "failed to spawn command `ls -l`: not found");

    let wait = wait_failed("ls", other("interrupted"));
    assert_eq!(wait.message(), "failed to wait for command `ls`: interrupted");

    let pipe = output_pipe_error("cmd", OutputStream::Stdout);
    assert_eq!(pipe.message(), "failed to read stdout for command `cmd`: stdout pipe was not created");

    let timed_out = CommandError::from_reason("sleep 5", CommandErrorReason::TimedOut { timeout: TimeSpan::from_millis(1500) }, None);
    assert_eq!(timed_out.message(), "command `sleep 5` timed out after 1.5s");

    let conflict = CommandError::from_reason(
        "cat",
        CommandErrorReason::InputOutputConflict {
            input_path: PathBuf::from("/secret/in"),
            output_stream: OutputStream::Stderr,
            output_path: PathBuf::from("/secret/out"),
        },
        None,
    );
    let text = conflict.message();
    assert_eq!(text, "stdin file '<redacted path>' conflicts with stderr file '<redacted path>' for command 'cat'");
    assert!(!text.contains("secret"));
}

#[test]
fn unexpected_exit_message_lists_codes_and_failures() {
    let error = CommandError::from_reason(
        "false",
        CommandErrorReason::UnexpectedExit { exit_code: Some(-3), expected: vec![0, 1, 42] },
        None,
    )
    .with_cleanup_failures(vec![CommandCleanupFailure::Wait { source: other("gone") }]);
    assert_eq!(error.message(), "command `false` exited with code Some(-3); expected one of [0, 1, 42]; 1 cleanup failure(s)");

    let unknown = CommandError::from_reason("x", CommandErrorReason::UnexpectedExit { exit_code: None, expected: vec![] }, None);
    assert_eq!(unknown.message(), "command `x` exited with code None; expected one of []");
}

#[test]
fn unexpected_exit_by_signal_names_the_signal() {
    let output = CommandOutput::new(ExitStatus::signaled(9), (Vec::new(), false, true), (Vec::new(), false, true), TimeSpan::zero());
    let error = CommandError::from_reason(
        "sleep",
        CommandErrorReason::UnexpectedExit { exit_code: None, expected: vec![0] },
        Some(Box::new(output)),
    );
    assert_eq!(error.message(), "command `sleep` exited with signal 9; expected one of [0]");
}

#[test]
fn debug_text_never_shows_raw_paths() {
    let reason = CommandErrorReason::OpenInputFailed { path: PathBuf::from("/very/private/input"), source: io_error() };
    let text = reason.debug_text();
    assert!(text.starts_with("OpenInputFailed { path: "));
    assert!(!text.contains("/very/private/input"));

    let failure = CommandCleanupFailure::StdoutWrite { path: PathBuf::from("/very/private/out"), source: io_error() };
    assert!(!failure.debug_text().contains("/very/private/out"));
}

#[test]
fn io_failure_debug_text_shows_kind_code_and_message() {
    let failure = IoFailure::new(IoFailureKind::NotFound, Some(2), "missing".to_string());
    assert_eq!(failure.debug_text(), "IoFailure { kind: NotFound, raw_os_error: Some(2), message: \"missing\" }");
}

#[test]
fn test_join_stdin_writer_maps_write_failure() {
    let error = join_stdin_writer("command", StdinHelperOutcome::Finished(Err(other("injected stdin write failure"))))
        .err().must("stdin write failure should be mapped");
    assert!(matches!(
        error.reason(),
        CommandErrorReason::WriteInputFailed { source } if source.message() == "injected stdin write failure"
    ));
}

#[test]
fn test_join_stdin_writer_maps_worker_panic() {
    let error = join_stdin_writer("command", StdinHelperOutcome::Panicked).err().must("stdin worker panic should be mapped");
    assert!(matches!(
        error.reason(),
        CommandErrorReason::WriteInputFailed { source } if source.message() == "stdin writer thread panicked"
    ));
}

#[test]
fn closed_stdin_pipe_is_not_a_failure() {
    let result = join_stdin_writer(
        "command",
        StdinHelperOutcome::Finished(Err(IoFailure::new(IoFailureKind::BrokenPipe, Some(32), "broken pipe".to_string()))),
    );
    assert!(result.is_ok());
    assert!(join_stdin_writer("command", StdinHelperOutcome::NotStarted).is_ok());
}

#[test]
fn test_write_stdin_bytes_reports_missing_pipe() {
    let error = stdin_pipe_missing("command");
    assert_eq!(error.kind(), CommandErrorKind::WriteInputFailed);
    assert!(error.message().contains("stdin pipe was not created"));
}

#[test]
fn kill_failure_keeps_timeout_and_both_sources() {
    let error = kill_failed("kill", TimeSpan::from_secs(1), other("kill source"), other("child kill source"));
    assert_eq!(error.kind(), CommandErrorKind::KillFailed);
    assert!(matches!(
        error.reason(),
        CommandErrorReason::KillFailed { timeout, process_tree_source, child_source }
            if *timeout == TimeSpan::from_secs(1)
                && process_tree_source.message() == "kill source"
                && child_source.message() == "child kill source"
    ));
    assert!(error.process_tree_source().is_none(), "only cleanup failures are searched");
}

#[test]
fn test_finish_helpers_joins_when_all_cancellations_succeed() {
    let cancellation = helper_cancellation_failures(None, None, None);
    let failures = cancel_and_join_failures(cancellation, Some(Ok(CapturedOutput::default())), Some(Ok(CapturedOutput::default())), None);
    assert!(failures.is_empty());
}

#[test]
fn test_finish_helpers_joins_completed_reader_after_cancellation_failure() {
    let cancellation = helper_cancellation_failures(Some(other("stdout cancellation failed")), None, None);
    let failures = cancel_and_join_failures(cancellation, Some(Ok(CapturedOutput::default())), Some(Ok(CapturedOutput::default())), None);

    assert_eq!(failures.len(), 1);
    assert!(matches!(failures[0], CommandCleanupFailure::StdoutCancellation { .. }));
}

#[test]
fn test_finish_helpers_detaches_after_confirmation_timeout() {
    let cancellation = helper_cancellation_failures(Some(other("stdout cancellation failed")), None, None);
    let failures = cancel_and_join_failures(cancellation, None, Some(Ok(CapturedOutput::default())), None);

    assert_eq!(failures.len(), 1);
    assert!(matches!(failures[0], CommandCleanupFailure::StdoutCancellation { .. }));
}

#[test]
fn test_finish_helpers_orders_all_cancellation_failures_by_helper() {
    let cancellation = helper_cancellation_failures(
        Some(other("stdout cancellation failed")),
        Some(other("stderr cancellation failed")),
        Some(other("stdin cancellation failed")),
    );
    let failures = cancel_and_join_failures(cancellation, Some(Ok(CapturedOutput::default())), Some(Ok(CapturedOutput::default())), Some(Ok(())));

    assert_eq!(failures.len(), 3);
    assert!(matches!(failures[0], CommandCleanupFailure::StdoutCancellation { .. }));
    assert!(matches!(failures[1], CommandCleanupFailure::StderrCancellation { .. }));
    assert!(matches!(failures[2], CommandCleanupFailure::StdinCancellation { .. }));
}

#[test]
fn test_finish_helpers_keeps_output_error_primary_to_cancellation_failure() {
    let failures = helper_cancellation_failures(Some(other("stdout cancellation failed")), None, None);
    let output = collect_after_cancellation(
        "test command",
        ExitStatus::exited(0),
        Ok(TimeSpan::zero()),
        Some(Err(OutputCaptureError::Read { source: other("stdout read failed"), output: CapturedOutput::default() })),
        Some(Ok(CapturedOutput::default())),
        None,
    );

    assert!(matches!(
        output.err().must("reader failure should remain primary").reason(),
        CommandErrorReason::ReadOutputFailed { .. }
    ));
    assert_eq!(failures.len(), 1);
    assert!(matches!(failures[0], CommandCleanupFailure::StdoutCancellation { .. }));
}

#[test]
fn detached_readers_count_as_incomplete_empty_output() {
    let output = collect_after_cancellation(
        "test command",
        ExitStatus::exited(0),
        Ok(TimeSpan::zero()),
        None,
        Some(Ok(CapturedOutput { bytes: b"err".to_vec(), truncated: false, complete: true })),
        None,
    )
    .must("detached readers are not failures");
    assert!(output.stdout().is_empty());
    assert!(!output.stdout_complete());
    assert_eq!(output.stderr(), b"err");
}

#[test]
fn missing_output_pipe_is_reported_for_its_stream() {
    assert_eq!(take_output_pipe("cmd", OutputStream::Stdout, Some(5)).must("present pipe is taken"), 5);
    let error = take_output_pipe::<u8>("cmd", OutputStream::Stderr, None).err().must("missing pipe");
    assert!(matches!(
        error.reason(),
        CommandErrorReason::ReadOutputFailed { stream: OutputStream::Stderr, source }
            if source.message() == "stderr pipe was not created"
    ));
}

#[test]
fn test_join_output_reader_maps_worker_panic() {
    let error = join_output_reader(ReaderOutcome::Panicked).err().must("output worker panic should be mapped");

    let OutputCaptureError::Read { source, output } = error else {
        panic!("expected output read failure");
    };
    assert_eq!(source.message(), "output reader thread panicked");
    assert!(!output.complete);
}

#[test]
fn finished_reader_outcome_is_kept() {
    let output = join_output_reader(ReaderOutcome::Finished(Ok(CapturedOutput { bytes: b"x".to_vec(), truncated: false, complete: true })))
        .must("a finished reader keeps its output");
    assert_eq!(output.bytes, b"x");
}

#[test]
fn error_source_is_the_underlying_failure() {
    let spawn = spawn_failed("cmd", other("no such program"));
    assert!(matches!(spawn.source(), Some(ErrorSource::Io(source)) if source.message() == "no such program"));
    let time = CommandError::from_reason("cmd", CommandErrorReason::TimeFailed { source: TimeFailure::new("clock") }, None);
    assert!(matches!(time.source(), Some(ErrorSource::Time(source)) if source.message() == "clock"));
    let cancelled = CommandError::from_reason("cmd", CommandErrorReason::Cancelled, None);
    assert!(cancelled.source().is_none());
}

#[test]
fn test_write_stdin_bytes_maps_injected_spawn_failure() {
    let error = map_stdin_thread_result::<()>("command", Err(other("injected spawn failure")))
        .err().must("injected stdin worker failure should be mapped");
    assert!(matches!(
        error.reason(),
        CommandErrorReason::StartInputThreadFailed { source } if source.message() == "injected spawn failure"
    ));
}
