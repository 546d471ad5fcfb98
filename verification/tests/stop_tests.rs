use qubit_command::stop::decide_wait_step;
use qubit_command::stop::next_sleep;
use qubit_command::stop::RunEvent;
use qubit_command::stop::StopReason;
use qubit_command::stop::WaitStep;
use qubit_command::CommandErrorKind;
use qubit_command::ExitStatus;
use qubit_command::IoFailure;
use qubit_command::IoFailureKind;
use qubit_command::TimeFailure;
use qubit_command::TimeSpan;

/// Unwraps a value whose failure side has no `Debug` rendering.
trait Must<T> {
    fn must(self, message: &str) -> T;
}

impl<T> Must<T> for Option<T> {
    fn must(self, message: &str) -> T {
        match self {
            Some(value) => value,
            None => panic!("{message}"),
        }
    }
}

impl<T, E> Must<T> for Result<T, E> {
    fn must(self, message: &str) -> T {
        match self {
            Ok(value) => value,
            Err(_) => panic!("{message}"),
        }
    }
}


fn status(code: i32) -> ExitStatus {
    ExitStatus::exited(code)
}

fn other(message: &str) -> IoFailure {
    IoFailure::new(IoFailureKind::Other, None, message.to_string())
}

#[derive(Clone, Copy)]
enum ExpectedStop {
    TimedOut,
    Cancelled,
    WaitFailed,
    TimeFailed,
}

#[test]
fn test_run_event_maps_non_exit_events_to_stop_reasons() {
    let timeout = TimeSpan::from_secs(3);
    let cases = [
        (RunEvent::TimedOut { timeout, status: None }, ExpectedStop::TimedOut, None),
        (RunEvent::TimedOut { timeout, status: Some(status(21)) }, ExpectedStop::TimedOut, Some(21)),
        (RunEvent::Cancelled { status: None }, ExpectedStop::Cancelled, None),
        (RunEvent::Cancelled { status: Some(status(22)) }, ExpectedStop::Cancelled, Some(22)),
        (RunEvent::WaitFailed(other("wait failed")), ExpectedStop::WaitFailed, None),
        (RunEvent::TimeFailed { source: TimeFailure::new("instant overflow"), status: None }, ExpectedStop::TimeFailed, None),
        (
            RunEvent::TimeFailed { source: TimeFailure::new("instant overflow"), status: Some(status(23)) },
            ExpectedStop::TimeFailed,
            Some(23),
        ),
    ];

    for (event, expected, expected_code) in cases {
        let reason = event.into_exit_status().err().must("non-exit event should map to a stop reason");
        assert_eq!(reason.observed_status().and_then(|status| status.code()), expected_code);
        assert!(match (reason, expected) {
            (StopReason::TimedOut { .. }, ExpectedStop::TimedOut)
            | (StopReason::Cancelled { .. }, ExpectedStop::Cancelled)
            | (StopReason::WaitFailed(_), ExpectedStop::WaitFailed)
            | (StopReason::TimeFailed { .. }, ExpectedStop::TimeFailed) => true,
            _ => false,
        });
    }
}

#[test]
fn test_run_event_keeps_normal_exit_separate_from_stop_reasons() {
    let event = RunEvent::Exited(status(7));

    let exit_status = event.into_exit_status().must("normal exit should retain its status");

    assert_eq!(exit_status.code(), Some(7));
}

#[test]
fn test_stop_reason_builds_each_primary_error_kind() {
    let cases = [
        (StopReason::TimedOut { timeout: TimeSpan::from_secs(3), status: None }, CommandErrorKind::TimedOut),
        (StopReason::Cancelled { status: None }, CommandErrorKind::Cancelled),
        (StopReason::WaitFailed(other("wait failed")), CommandErrorKind::WaitFailed),
        (StopReason::TimeFailed { source: TimeFailure::new("instant overflow"), status: None }, CommandErrorKind::TimeFailed),
    ];

    for (reason, expected_kind) in cases {
        let error = reason.into_primary_error("command", None);
        assert_eq!(error.kind(), expected_kind);
    }
}

#[test]
fn only_timeouts_and_cancellations_retain_termination_output() {
    assert!(StopReason::TimedOut { timeout: TimeSpan::from_secs(1), status: None }.retains_termination_output());
    assert!(StopReason::Cancelled { status: None }.retains_termination_output());
    assert!(!StopReason::WaitFailed(other("wait failed")).retains_termination_output());
    assert!(!StopReason::TimeFailed { source: TimeFailure::new("clock"), status: None }.retains_termination_output());
}

#[test]
fn next_sleep_backs_off_then_caps_at_ten_milliseconds() {
    let timeout = TimeSpan::from_secs(10);
    let elapsed = TimeSpan::from_secs(1);
    let expected_millis = [1u128, 2, 4, 8, 10, 10, 10];
    for (poll_count, millis) in expected_millis.iter().enumerate() {
        assert_eq!(next_sleep(timeout, elapsed, poll_count).as_nanos(), millis * 1_000_000);
    }
}

#[test]
fn next_sleep_never_passes_the_timeout() {
    let timeout = TimeSpan::from_millis(100);
    assert_eq!(next_sleep(timeout, TimeSpan::from_micros(99_500), 5).as_nanos(), 500_000);
    assert_eq!(next_sleep(timeout, TimeSpan::from_millis(150), 5).as_nanos(), 0);
}

#[test]
fn wait_step_prefers_cancellation() {
    let step = decide_wait_step(Some(status(4)), true, Some(TimeSpan::from_secs(1)), Some(Ok(TimeSpan::from_secs(5))), 0);
    assert!(matches!(step, WaitStep::Finish(RunEvent::Cancelled { status: Some(s) }) if s.code() == Some(4)));
}

#[test]
fn wait_step_reports_timeout_and_clock_failure() {
    let step = decide_wait_step(None, false, Some(TimeSpan::from_secs(1)), Some(Ok(TimeSpan::from_secs(1))), 3);
    assert!(matches!(step, WaitStep::Finish(RunEvent::TimedOut { status: None, .. })));

    let step = decide_wait_step(None, false, Some(TimeSpan::from_secs(1)), Some(Err(TimeFailure::new("clock"))), 3);
    assert!(matches!(step, WaitStep::Finish(RunEvent::TimeFailed { status: None, .. })));
}

#[test]
fn wait_step_sleeps_by_poll_interval_or_cancellation_interval() {
    let step = decide_wait_step(None, false, Some(TimeSpan::from_secs(1)), Some(Ok(TimeSpan::from_millis(10))), 2);
    assert!(matches!(step, WaitStep::Sleep(span) if span.as_nanos() == 4_000_000));

    let step = decide_wait_step(None, false, None, None, 2);
    assert!(matches!(step, WaitStep::Sleep(span) if span.as_nanos() == 10_000_000));
}
