use std::path::Path;
use std::path::PathBuf;

use qubit_command::capture::read_output;
use qubit_command::capture::RecordedSource;
use qubit_command::capture::CapturedOutput;
use qubit_command::capture::OutputCaptureError;
use qubit_command::capture::OutputCaptureOptions;
use qubit_command::capture::OutputSink;
use qubit_command::capture::OutputSource;
use qubit_command::capture::OutputTee;
use qubit_command::collector::collect_output_results;
use qubit_command::helpers::cancel_and_join_failures;
use qubit_command::stop::StopReason;
use qubit_command::CommandCleanupFailure;
use qubit_command::CommandError;
use qubit_command::CommandErrorKind;
use qubit_command::CommandErrorReason;
use qubit_command::ExitStatus;
use qubit_command::IoFailure;
use qubit_command::IoFailureKind;
use qubit_command::OutputStream;
use qubit_command::TimeFailure;
use qubit_command::TimeSpan;

/// Unwraps a value whose failure side has no `Debug` rendering.
trait Must<T> {
    fn must(self, message: &str) -> T;
}

impl<T> Must<T> for Option<T> {
    fn must(self, message: &str) -> T {
        match self {
            Some(value) => value,
            None => panic!("{message}"),
        }
    }
}

impl<T, E> Must<T> for Result<T, E> {
    fn must(self, message: &str) -> T {
        match self {
            Ok(value) => value,
            Err(_) => panic!("{message}"),
        }
    }
}


fn status(code: i32) -> ExitStatus {
    ExitStatus::exited(code)
}

fn other(message: &str) -> IoFailure {
    IoFailure::new(IoFailureKind::Other, None, message.to_string())
}

fn os_failure(code: i32) -> IoFailure {
    IoFailure::new(IoFailureKind::Other, Some(code), format!("os error {code}"))
}

fn captured(bytes: &[u8], truncated: bool, complete: bool) -> CapturedOutput {
    CapturedOutput { bytes: bytes.to_vec(), truncated, complete }
}

fn stdin_failure() -> CommandError {
    CommandError::from_reason("command", CommandErrorReason::WriteInputFailed { source: os_failure(7) }, None)
}

struct TeeThatFails;

impl OutputSink for TeeThatFails {
    fn write_all(&mut self, _bytes: &[u8]) -> Result<(), IoFailure> {
        Err(other("write failure"))
    }

    fn flush(&mut self) -> Result<(), IoFailure> {
        Ok(())
    }
}

/// Yields "prefix" once, then fails with raw code 9.
struct PrefixThenFailure {
    sent: bool,
}

impl OutputSource for PrefixThenFailure {
    fn read_chunk(&mut self, _max_len: usize) -> Result<Vec<u8>, IoFailure> {
        if self.sent {
            Err(os_failure(9))
        } else {
            self.sent = true;
            Ok(b"prefix".to_vec())
        }
    }
}

/// A capture whose tee failed on the first write and whose reader then
/// failed.
fn tee_failure_then_read_failure() -> Result<CapturedOutput, OutputCaptureError> {
    read_output(
        &mut RecordedSource::new(PrefixThenFailure { sent: false }),
        OutputCaptureOptions::new(
            Some(8),
            Some(OutputTee::new(TeeThatFails, PathBuf::from("failed-tee.log"))),
        ),
    )
}

#[test]
fn test_pending_tee_error_survives_later_read_failure() {
    for stream in [OutputStream::Stdout, OutputStream::Stderr] {
        let failed = tee_failure_then_read_failure();
        let (stdout, stderr) = match stream {
            OutputStream::Stdout => (failed, Ok(CapturedOutput::default())),
            OutputStream::Stderr => (Ok(CapturedOutput::default()), failed),
        };
        let error = collect_output_results("command", status(0), Ok(TimeSpan::from_secs(1)), stdout, stderr, Ok(()))
            .err().must("both output failures must be reported");
        assert!(matches!(
            error.reason(),
            CommandErrorReason::WriteOutputFailed { stream: actual, source, .. }
                if *actual == stream && source.message() == "write failure"
        ));
        assert!(matches!(
            (stream, error.cleanup_failures()),
            (OutputStream::Stdout, [CommandCleanupFailure::StdoutRead { source }])
            | (OutputStream::Stderr, [CommandCleanupFailure::StderrRead { source }])
                if source.raw_os_error() == Some(9)
        ));
        let output = error.output().must("partial output must be retained");
        match stream {
            OutputStream::Stdout => {
                assert_eq!(output.stdout(), b"prefix");
                assert!(!output.stdout_complete());
            }
            OutputStream::Stderr => {
                assert_eq!(output.stderr(), b"prefix");
                assert!(!output.stderr_complete());
            }
        }
    }
}

/// Checks that all four stream errors are kept in resource order.
fn assert_both_stream_failures(failures: &[CommandCleanupFailure]) {
    assert!(matches!(
        failures,
        [
            CommandCleanupFailure::StdoutWrite { path: stdout_path, source: stdout_write },
            CommandCleanupFailure::StdoutRead { source: stdout_read },
            CommandCleanupFailure::StderrWrite { path: stderr_path, source: stderr_write },
            CommandCleanupFailure::StderrRead { source: stderr_read },
        ] if stdout_path == Path::new("failed-tee.log")
            && stderr_path == Path::new("failed-tee.log")
            && stdout_write.message() == "write failure"
            && stderr_write.message() == "write failure"
            && stdout_read.raw_os_error() == Some(9)
            && stderr_read.raw_os_error() == Some(9)
    ));
}

#[test]
fn test_combined_stream_failures_survive_time_failure_and_stop_reason_demotion() {
    let error = collect_output_results(
        "command",
        status(0),
        Err(TimeFailure::new("instant overflow")),
        tee_failure_then_read_failure(),
        tee_failure_then_read_failure(),
        Ok(()),
    )
    .err().must("clock error must retain both stream failures");
    assert_eq!(error.kind(), CommandErrorKind::TimeFailed);
    assert!(error.output().is_none());
    assert_both_stream_failures(error.cleanup_failures());

    for reason in [
        StopReason::TimedOut { timeout: TimeSpan::from_secs(1), status: Some(status(0)) },
        StopReason::Cancelled { status: Some(status(0)) },
    ] {
        let error = collect_output_results(
            "command",
            status(0),
            Ok(TimeSpan::from_secs(1)),
            tee_failure_then_read_failure(),
            tee_failure_then_read_failure(),
            Ok(()),
        )
        .err().must("combined stream failures must be retained");
        let expected_kind = if matches!(reason, StopReason::TimedOut { .. }) {
            CommandErrorKind::TimedOut
        } else {
            CommandErrorKind::Cancelled
        };
        let error = reason.into_error_after_finalize("command", error);
        assert_eq!(error.kind(), expected_kind);
        assert_both_stream_failures(error.cleanup_failures());
        let output = error.output().must("demotion must preserve both partial streams");
        assert_eq!(output.stdout(), b"prefix");
        assert_eq!(output.stderr(), b"prefix");
        assert!(!output.stdout_complete());
        assert!(!output.stderr_complete());
    }
}

#[test]
fn test_combined_stream_failures_survive_cleanup_without_process_status() {
    let failures = cancel_and_join_failures(
        Vec::new(),
        Some(tee_failure_then_read_failure()),
        Some(tee_failure_then_read_failure()),
        None,
    );
    assert_both_stream_failures(&failures);
}

#[test]
fn test_collect_output_prioritizes_elapsed_failure_and_retains_helpers() {
    let stdout_error = OutputCaptureError::Read {
        source: other("injected stdout read failure"),
        output: CapturedOutput::default(),
    };
    let stderr_error = OutputCaptureError::Write {
        path: PathBuf::from("stderr.log"),
        source: other("injected stderr write failure"),
        output: CapturedOutput::default(),
    };
    let stdin_error = CommandError::from_reason(
        "command",
        CommandErrorReason::WriteInputFailed { source: other("injected stdin write failure") },
        None,
    );

    let error = collect_output_results(
        "command",
        status(0),
        Err(TimeFailure::new("injected elapsed failure")),
        Err(stdout_error),
        Err(stderr_error),
        Err(stdin_error),
    )
    .err().must("elapsed failure should remain primary");

    assert_eq!(error.kind(), CommandErrorKind::TimeFailed);
    assert!(matches!(
        error.cleanup_failures(),
        [
            CommandCleanupFailure::StdoutRead { .. },
            CommandCleanupFailure::StderrWrite { .. },
            CommandCleanupFailure::Stdin { .. },
        ]
    ));
    assert!(error.output().is_none());
}

#[test]
fn test_collect_output_maps_stdout_read_failure_with_partial_streams() {
    let error = collect_output_results(
        "command",
        status(0),
        Ok(TimeSpan::from_secs(1)),
        Err(OutputCaptureError::Read {
            source: other("injected stdout read failure"),
            output: captured(b"partial-stdout", false, false),
        }),
        Ok(captured(b"complete-stderr", false, true)),
        Ok(()),
    )
    .err().must("stdout read failure should be mapped");

    assert!(matches!(error.reason(), CommandErrorReason::ReadOutputFailed { stream: OutputStream::Stdout, .. }));
    let output = error.output().must("partial output should be retained");
    assert_eq!(output.stdout(), b"partial-stdout");
    assert_eq!(output.stderr(), b"complete-stderr");
    assert!(!output.stdout_complete());
    assert!(output.stderr_complete());
}

#[test]
fn test_collect_output_orders_combined_helper_failures() {
    let error = collect_output_results(
        "command",
        status(0),
        Ok(TimeSpan::from_secs(1)),
        Err(OutputCaptureError::Read {
            source: other("injected stdout read failure"),
            output: CapturedOutput::default(),
        }),
        Err(OutputCaptureError::Write {
            path: PathBuf::from("stderr.log"),
            source: other("injected stderr tee failure"),
            output: CapturedOutput::default(),
        }),
        Err(stdin_failure()),
    )
    .err().must("stdout failure should remain primary");

    assert!(matches!(error.reason(), CommandErrorReason::ReadOutputFailed { stream: OutputStream::Stdout, .. }));
    assert!(matches!(
        error.cleanup_failures(),
        [CommandCleanupFailure::StderrWrite { .. }, CommandCleanupFailure::Stdin { .. }]
    ));
}

#[test]
fn test_collect_output_maps_stderr_read_failure() {
    let error = collect_output_results(
        "command",
        status(0),
        Ok(TimeSpan::from_secs(1)),
        Ok(captured(b"stdout", false, true)),
        Err(OutputCaptureError::Read {
            source: other("injected stderr read failure"),
            output: captured(b"partial-stderr", false, false),
        }),
        Ok(()),
    )
    .err().must("stderr read failure should be mapped");

    assert!(matches!(error.reason(), CommandErrorReason::ReadOutputFailed { stream: OutputStream::Stderr, .. }));
    let output = error.output().must("partial output should be retained");
    assert_eq!(output.stdout(), b"stdout");
    assert_eq!(output.stderr(), b"partial-stderr");
}

#[test]
fn test_collect_output_maps_each_tee_failure() {
    for stream in [OutputStream::Stdout, OutputStream::Stderr] {
        let failure = OutputCaptureError::Write {
            path: PathBuf::from(format!("{}.log", stream.as_str())),
            source: other("injected tee failure"),
            output: captured(b"output", false, true),
        };
        let (stdout, stderr) = match stream {
            OutputStream::Stdout => (Err(failure), Ok(CapturedOutput::default())),
            OutputStream::Stderr => (Ok(CapturedOutput::default()), Err(failure)),
        };

        let error = collect_output_results("command", status(0), Ok(TimeSpan::from_secs(1)), stdout, stderr, Ok(()))
            .err().must("tee failure should be mapped");

        assert!(matches!(
            error.reason(),
            CommandErrorReason::WriteOutputFailed { stream: actual, .. } if *actual == stream
        ));
    }
}

#[test]
fn test_collect_output_preserves_completed_output_on_stdin_failure() {
    let error = collect_output_results(
        "command",
        status(0),
        Ok(TimeSpan::from_secs(1)),
        Ok(captured(b"stdout", false, true)),
        Ok(captured(b"stderr", false, true)),
        Err(stdin_failure()),
    )
    .err().must("stdin failure should be mapped");

    assert_eq!(error.kind(), CommandErrorKind::WriteInputFailed);
    let output = error.output().must("completed output should be retained");
    assert_eq!(output.stdout(), b"stdout");
    assert_eq!(output.stderr(), b"stderr");
}

#[test]
fn test_collect_output_preserves_stdin_os_error_source() {
    let error = collect_output_results(
        "command",
        status(0),
        Ok(TimeSpan::from_secs(1)),
        Ok(CapturedOutput::default()),
        Ok(CapturedOutput::default()),
        Err(stdin_failure()),
    )
    .err().must("stdin failure should be mapped");

    let CommandErrorReason::WriteInputFailed { source } = error.reason() else {
        panic!("expected stdin write failure");
    };
    assert_eq!(source.raw_os_error(), Some(7));
}

#[test]
fn test_collect_output_builds_success_with_truncation() {
    let output = collect_output_results(
        "command",
        status(0),
        Ok(TimeSpan::from_secs(1)),
        Ok(captured(b"stdout", true, true)),
        Ok(captured(b"stderr", false, true)),
        Ok(()),
    )
    .must("successful helper results should produce output");

    assert_eq!(output.stdout(), b"stdout");
    assert_eq!(output.stderr(), b"stderr");
    assert!(output.stdout_truncated());
}

#[test]
fn collect_output_records_status_and_elapsed_time() {
    let output = collect_output_results(
        "command",
        status(3),
        Ok(TimeSpan::from_millis(250)),
        Ok(captured(b"out", false, true)),
        Ok(captured(b"err", false, false)),
        Ok(()),
    )
    .must("successful helper results should produce output");

    assert_eq!(output.exit_code(), Some(3));
    assert_eq!(output.elapsed().as_nanos(), 250_000_000);
    assert!(!output.stderr_complete());
}

#[test]
fn cancellation_failures_precede_joined_helper_failures() {
    let failures = cancel_and_join_failures(
        vec![CommandCleanupFailure::StdoutCancellation { source: other("stdout cancel failed") }],
        None,
        Some(Err(OutputCaptureError::Read { source: os_failure(4), output: CapturedOutput::default() })),
        Some(Err(stdin_failure())),
    );

    assert!(matches!(
        failures.as_slice(),
        [
            CommandCleanupFailure::StdoutCancellation { .. },
            CommandCleanupFailure::StderrRead { source },
            CommandCleanupFailure::Stdin { .. },
        ] if source.raw_os_error() == Some(4)
    ));
}
