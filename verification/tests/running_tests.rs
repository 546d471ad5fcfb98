use std::cell::RefCell;
use std::collections::VecDeque;
use std::path::PathBuf;
use std::rc::Rc;

use qubit_command::capture::CapturedOutput;
use qubit_command::capture::OutputCaptureError;
use qubit_command::helpers::join_stdin_writer;
use qubit_command::helpers::StdinHelperOutcome;
use qubit_command::running::abort_startup;
use qubit_command::running::stop_and_finalize;
use qubit_command::running::wait_for_event;
use qubit_command::running::wait_for_helpers;
use qubit_command::running::RecordedHelpers;
use qubit_command::running::RecordedMonitor;
use qubit_command::running::RunMonitor;
use qubit_command::running::RunHelpers;
use qubit_command::running::StoppedHelpers;
use qubit_command::stop::RunEvent;
use qubit_command::terminator::ChildControl;
use qubit_command::terminator::ManagedChildProcess;
use qubit_command::CommandCleanupFailure;
use qubit_command::CommandError;
use qubit_command::CommandErrorKind;
use qubit_command::CommandErrorReason;
use qubit_command::ExitStatus;
use qubit_command::IoFailure;
use qubit_command::IoFailureKind;
use qubit_command::OutputStream;
use qubit_command::TimeFailure;
use qubit_command::TimeSpan;

/// Unwraps a value whose failure side has no `Debug` rendering.
trait Must<T> {
    fn must(self, message: &str) -> T;
}

impl<T> Must<T> for Option<T> {
    fn must(self, message: &str) -> T {
        match self {
            Some(value) => value,
            None => panic!("{message}"),
        }
    }
}

impl<T, E> Must<T> for Result<T, E> {
    fn must(self, message: &str) -> T {
        match self {
            Ok(value) => value,
            Err(_) => panic!("{message}"),
        }
    }
}


fn status(code: i32) -> ExitStatus {
    ExitStatus::exited(code)
}

fn other(message: &str) -> IoFailure {
    IoFailure::new(IoFailureKind::Other, None, message.to_string())
}

/// A child whose answers are scripted and whose calls are logged.
struct ScriptedChild {
    calls: Rc<RefCell<Vec<String>>>,
    tree_kill_error: Option<IoFailure>,
    child_kill_error: Option<IoFailure>,
    wait_result: Option<Result<ExitStatus, IoFailure>>,
    try_wait_results: VecDeque<Result<Option<ExitStatus>, IoFailure>>,
}

impl ScriptedChild {
    fn new(calls: &Rc<RefCell<Vec<String>>>) -> Self {
        ScriptedChild {
            calls: Rc::clone(calls),
            tree_kill_error: None,
            child_kill_error: None,
            wait_result: None,
            try_wait_results: VecDeque::new(),
        }
    }

    fn record(&self, operation: &str) {
        self.calls.borrow_mut().push(operation.to_string());
    }
}

impl ChildControl for ScriptedChild {
    fn start_kill_tree(&mut self) -> Result<(), IoFailure> {
        self.record("tree.kill");
        match self.tree_kill_error.take() {
            Some(source) => Err(source),
            None => Ok(()),
        }
    }

    fn start_kill_child(&mut self) -> Result<(), IoFailure> {
        self.record("child.kill");
        match self.child_kill_error.take() {
            Some(source) => Err(source),
            None => Ok(()),
        }
    }

    fn try_wait(&mut self) -> Result<Option<ExitStatus>, IoFailure> {
        self.record("tree.try_wait");
        self.try_wait_results.pop_front().unwrap_or(Ok(Some(status(0))))
    }

    fn wait(&mut self) -> Result<ExitStatus, IoFailure> {
        self.record("tree.wait");
        self.wait_result.take().unwrap_or(Ok(status(0)))
    }
}

fn terminating_child(exit_status: ExitStatus) -> ManagedChildProcess<ScriptedChild> {
    let calls = Rc::new(RefCell::new(Vec::new()));
    let mut child = ScriptedChild::new(&calls);
    child.wait_result = Some(Ok(exit_status));
    ManagedChildProcess::new(child, true)
}

fn fallback_race_child(exit_status: ExitStatus) -> ManagedChildProcess<ScriptedChild> {
    let calls = Rc::new(RefCell::new(Vec::new()));
    let mut child = ScriptedChild::new(&calls);
    child.child_kill_error = Some(other("child termination failed"));
    child.tree_kill_error = Some(other("tree termination failed"));
    child.try_wait_results = (0..8).map(|_| Ok(None)).chain(std::iter::once(Ok(Some(exit_status)))).collect();
    ManagedChildProcess::new(child, true)
}

/// Helpers that have already finished with scripted results.
struct ScriptedHelpers {
    stopped: Option<StoppedHelpers>,
    elapsed: Result<TimeSpan, TimeFailure>,
    cancel_calls: usize,
}

impl RunHelpers for ScriptedHelpers {
    fn cancel_and_join(&mut self) -> StoppedHelpers {
        self.cancel_calls += 1;
        self.stopped.take().unwrap_or(StoppedHelpers {
            cancellation_failures: Vec::new(),
            stdout: None,
            stderr: None,
            stdin: None,
        })
    }

    fn elapsed(&mut self) -> Result<TimeSpan, TimeFailure> {
        match &self.elapsed {
            Ok(span) => Ok(*span),
            Err(source) => Err(TimeFailure::new(source.message())),
        }
    }
}

fn successful_reader() -> Option<Result<CapturedOutput, OutputCaptureError>> {
    Some(Ok(CapturedOutput::default()))
}

fn failing_stdout() -> Option<Result<CapturedOutput, OutputCaptureError>> {
    Some(Err(OutputCaptureError::Read { source: other("stdout read failed"), output: CapturedOutput::default() }))
}

fn failing_stderr() -> Option<Result<CapturedOutput, OutputCaptureError>> {
    Some(Err(OutputCaptureError::Write {
        path: PathBuf::from("stderr.log"),
        source: other("stderr write failed"),
        output: CapturedOutput::default(),
    }))
}

fn failed_writer(message: &str) -> Option<Result<(), CommandError>> {
    Some(join_stdin_writer("test command", StdinHelperOutcome::Finished(Err(other(message)))))
}

fn helpers(
    stdout: Option<Result<CapturedOutput, OutputCaptureError>>,
    stderr: Option<Result<CapturedOutput, OutputCaptureError>>,
    stdin: Option<Result<(), CommandError>>,
) -> ScriptedHelpers {
    ScriptedHelpers {
        stopped: Some(StoppedHelpers { cancellation_failures: Vec::new(), stdout, stderr, stdin }),
        elapsed: Ok(TimeSpan::zero()),
        cancel_calls: 0,
    }
}

fn io_with_failures() -> ScriptedHelpers {
    helpers(failing_stdout(), failing_stderr(), failed_writer("stdin write failed"))
}

fn completed_io_with_cancellation_failures() -> ScriptedHelpers {
    let mut io = io_with_failures();
    io.stopped.as_mut().must("helpers are scripted").cancellation_failures = vec![
        CommandCleanupFailure::StdoutCancellation { source: other("stdout cancellation failed") },
        CommandCleanupFailure::StderrCancellation { source: other("stderr cancellation failed") },
        CommandCleanupFailure::StdinCancellation { source: other("stdin cancellation failed") },
    ];
    io
}

/// Resolves a monitoring event that stopped the command.
fn resolve_event(
    mut child: ManagedChildProcess<ScriptedChild>,
    mut io: ScriptedHelpers,
    event: RunEvent,
) -> CommandError {
    let reason = event.into_exit_status().err().must("a stopping event must not be a normal exit");
    stop_and_finalize("test command", &mut child, &mut RecordedHelpers::new(io), reason)
}

fn timeout_with_output_failure() -> CommandError {
    resolve_event(
        terminating_child(status(0)),
        helpers(failing_stdout(), successful_reader(), None),
        RunEvent::TimedOut { timeout: TimeSpan::from_secs(2), status: Some(status(0)) },
    )
}

fn cancellation_with_fallback_and_helper_failures() -> CommandError {
    let mut io = completed_io_with_cancellation_failures();
    io.elapsed = Err(TimeFailure::new("timer clock differs"));
    resolve_event(fallback_race_child(status(0)), io, RunEvent::Cancelled { status: None })
}

fn time_failure_with_helper_failures() -> CommandError {
    resolve_event(
        terminating_child(status(0)),
        io_with_failures(),
        RunEvent::TimeFailed { source: TimeFailure::new("instant overflow"), status: Some(status(0)) },
    )
}

fn wait_failure_with_helper_failures() -> CommandError {
    resolve_event(terminating_child(status(0)), io_with_failures(), RunEvent::WaitFailed(other("wait failed")))
}

fn cleanup_order(error: &CommandError) -> Vec<&'static str> {
    error
        .cleanup_failures()
        .iter()
        .map(|failure| match failure {
            CommandCleanupFailure::Wait { .. } => "wait",
            CommandCleanupFailure::Time { .. } => "time",
            CommandCleanupFailure::StdoutRead { .. } => "stdout-read",
            CommandCleanupFailure::StdoutCancellation { .. } => "stdout-cancel",
            CommandCleanupFailure::StderrWrite { .. } => "stderr-write",
            CommandCleanupFailure::StderrCancellation { .. } => "stderr-cancel",
            CommandCleanupFailure::Stdin { .. } => "stdin-write",
            CommandCleanupFailure::StdinCancellation { .. } => "stdin-cancel",
            CommandCleanupFailure::ProcessTreeTermination { .. } => "process-tree",
            CommandCleanupFailure::ChildTermination { .. } => "direct-child",
            _ => panic!("unexpected cleanup failure"),
        })
        .collect()
}

#[derive(Clone, Copy)]
enum ExpectedReason {
    TimedOut,
    Cancelled,
    TimeFailed,
    WaitFailed,
}

#[test]
fn test_resolve_event_preserves_error_priority_and_cleanup_order() {
    let cases = [
        (
            "timeout plus output read failure",
            timeout_with_output_failure as fn() -> CommandError,
            CommandErrorKind::TimedOut,
            ExpectedReason::TimedOut,
            true,
            &["stdout-read"][..],
        ),
        (
            "cancellation plus tree fallback and helper failures",
            cancellation_with_fallback_and_helper_failures,
            CommandErrorKind::Cancelled,
            ExpectedReason::Cancelled,
            false,
            &[
                "process-tree",
                "direct-child",
                "time",
                "stdout-read",
                "stdout-cancel",
                "stderr-write",
                "stderr-cancel",
                "stdin-write",
                "stdin-cancel",
            ][..],
        ),
        (
            "time failure plus helper failures",
            time_failure_with_helper_failures,
            CommandErrorKind::TimeFailed,
            ExpectedReason::TimeFailed,
            true,
            &["stdout-read", "stderr-write", "stdin-write"][..],
        ),
        (
            "wait failure plus helper failures",
            wait_failure_with_helper_failures,
            CommandErrorKind::WaitFailed,
            ExpectedReason::WaitFailed,
            false,
            &["stdout-read", "stderr-write", "stdin-write"][..],
        ),
    ];

    for (name, run, expected_kind, expected_reason, has_output, expected_cleanup) in cases {
        let error = run();
        assert_eq!(error.kind(), expected_kind, "{name}");
        assert!(
            matches!(
                (error.reason(), expected_reason),
                (CommandErrorReason::TimedOut { .. }, ExpectedReason::TimedOut)
                    | (CommandErrorReason::Cancelled, ExpectedReason::Cancelled)
                    | (CommandErrorReason::TimeFailed { .. }, ExpectedReason::TimeFailed)
                    | (CommandErrorReason::WaitFailed { .. }, ExpectedReason::WaitFailed)
            ),
            "{name}"
        );
        assert_eq!(error.output().is_some(), has_output, "{name}");
        assert_eq!(cleanup_order(&error), expected_cleanup, "{name}");
    }
}

#[test]
fn test_resolve_event_preserves_all_stop_reasons_across_cleanup_outcomes() {
    for event_kind in 0..7 {
        for termination_mode in 0..3 {
            let calls = Rc::new(RefCell::new(Vec::new()));
            let child = if termination_mode == 1 {
                let mut scripted = ScriptedChild::new(&calls);
                scripted.child_kill_error = Some(other("child denied"));
                scripted.tree_kill_error = Some(other("tree denied"));
                scripted.try_wait_results = (0..9).map(|_| Ok(None)).collect();
                ManagedChildProcess::new(scripted, true)
            } else if termination_mode == 2 {
                let mut scripted = ScriptedChild::new(&calls);
                scripted.wait_result = Some(Err(other("final wait failed")));
                ManagedChildProcess::new(scripted, true)
            } else {
                terminating_child(status(0))
            };
            let (event, expected) = match event_kind {
                0 => (RunEvent::TimedOut { timeout: TimeSpan::from_secs(2), status: None }, CommandErrorKind::TimedOut),
                1 => (RunEvent::Cancelled { status: None }, CommandErrorKind::Cancelled),
                2 => (RunEvent::WaitFailed(other("initial wait failed")), CommandErrorKind::WaitFailed),
                3 => (
                    RunEvent::TimeFailed { source: TimeFailure::new("instant overflow"), status: None },
                    CommandErrorKind::TimeFailed,
                ),
                4 => (
                    RunEvent::TimedOut { timeout: TimeSpan::from_secs(2), status: Some(status(0)) },
                    CommandErrorKind::TimedOut,
                ),
                5 => (RunEvent::Cancelled { status: Some(status(0)) }, CommandErrorKind::Cancelled),
                _ => (
                    RunEvent::TimeFailed { source: TimeFailure::new("instant overflow"), status: Some(status(0)) },
                    CommandErrorKind::TimeFailed,
                ),
            };
            let error = resolve_event(child, io_with_failures(), event);
            assert_eq!(error.kind(), expected, "event {event_kind}, termination mode {termination_mode}");
            let cleanup = cleanup_order(&error);
            assert!(cleanup.ends_with(&["stdout-read", "stderr-write", "stdin-write"]));
            assert_eq!(error.process_tree_source().is_some(), termination_mode == 1);
            assert_eq!(error.child_source().is_some(), termination_mode == 1 && event_kind < 4);
            assert_eq!(cleanup.contains(&"wait"), termination_mode == 2 && event_kind < 4);
            assert_eq!(error.output().is_some(), event_kind >= 4 || (termination_mode == 0 && event_kind < 2));
        }
    }
}

#[test]
fn test_timeout_retains_each_individual_helper_failure() {
    for failed_stream in 0..3 {
        let stdout = if failed_stream == 0 { failing_stdout() } else { successful_reader() };
        let stderr = if failed_stream == 1 { failing_stderr() } else { successful_reader() };
        let stdin = if failed_stream == 2 { failed_writer("stdin failed") } else { None };
        let error = resolve_event(
            terminating_child(status(0)),
            helpers(stdout, stderr, stdin),
            RunEvent::TimedOut { timeout: TimeSpan::from_secs(2), status: None },
        );
        assert_eq!(error.kind(), CommandErrorKind::TimedOut);
        assert!(error.output().is_some());
        assert_eq!(
            cleanup_order(&error),
            [match failed_stream {
                0 => "stdout-read",
                1 => "stderr-write",
                _ => "stdin-write",
            }]
        );
    }
}

#[test]
fn test_startup_abort_retains_primary_without_waiting_after_failed_kills() {
    let calls = Rc::new(RefCell::new(Vec::new()));
    let mut scripted = ScriptedChild::new(&calls);
    scripted.child_kill_error = Some(other("child denied"));
    scripted.tree_kill_error = Some(other("tree denied"));
    scripted.try_wait_results = (0..9).map(|_| Ok(None)).collect();
    let mut child = ManagedChildProcess::new(scripted, true);
    let mut no_helpers = ScriptedHelpers { stopped: None, elapsed: Ok(TimeSpan::zero()), cancel_calls: 0 };
    let primary = CommandError::from_reason(
        "redacted",
        CommandErrorReason::StartOutputThreadFailed { stream: OutputStream::Stderr, source: other("thread unavailable") },
        None,
    );
    let error = abort_startup(&mut child, &mut RecordedHelpers::new(no_helpers), primary);
    assert_eq!(error.kind(), CommandErrorKind::StartOutputThreadFailed);
    assert!(matches!(
        error.cleanup_failures(),
        [CommandCleanupFailure::ProcessTreeTermination { .. }, CommandCleanupFailure::ChildTermination { .. }]
    ));
    let calls = calls.borrow();
    assert!(!calls.iter().any(|call| call.ends_with(".wait")));
    assert_eq!(calls.iter().filter(|call| call.as_str() == "child.kill").count(), 1);
    assert_eq!(calls.iter().filter(|call| call.as_str() == "tree.kill").count(), 1);
}

#[test]
fn test_startup_abort_cancels_every_initialized_helper_once() {
    for (with_stdin, readers) in [(false, 0), (true, 0), (true, 1), (false, 2), (true, 2)] {
        let stage = usize::from(with_stdin) + readers;
        let calls = Rc::new(RefCell::new(Vec::new()));
        let mut child = ManagedChildProcess::new(ScriptedChild::new(&calls), true);
        let reader_failure =
            || Some(Err(OutputCaptureError::Read { source: other("reader failed"), output: CapturedOutput::default() }));
        let mut io = helpers(
            if readers > 0 { reader_failure() } else { None },
            if readers > 1 { reader_failure() } else { None },
            if with_stdin { failed_writer("stdin failed") } else { None },
        );
        let mut recorded = RecordedHelpers::new(io);
        let error = abort_startup(
            &mut child,
            &mut recorded,
            CommandError::from_reason(
                "redacted",
                CommandErrorReason::TimeFailed { source: TimeFailure::new("instant overflow") },
                None,
            ),
        );
        assert_eq!(error.kind(), CommandErrorKind::TimeFailed);
        assert_eq!(recorded.helpers.cancel_calls, 1);
        assert_eq!(error.cleanup_failures().len(), stage);
        assert_eq!(calls.borrow().iter().filter(|call| call.as_str() == "tree.kill").count(), 1);
    }
}

/// A monitor whose clock advances by each sleep and whose helpers finish
/// after a number of checks.
struct ScriptedMonitor {
    now: TimeSpan,
    cancel_after_checks: Option<usize>,
    checks: usize,
    helpers_finish_after: usize,
    sleeps: Vec<u128>,
    sleep_failure: bool,
}

impl ScriptedMonitor {
    fn new() -> Self {
        ScriptedMonitor {
            now: TimeSpan::zero(),
            cancel_after_checks: None,
            checks: 0,
            helpers_finish_after: 0,
            sleeps: Vec::new(),
            sleep_failure: false,
        }
    }
}

impl RunMonitor for ScriptedMonitor {
    fn is_cancelled(&self) -> bool {
        self.cancel_after_checks.is_some_and(|limit| self.checks >= limit)
    }

    fn elapsed(&mut self) -> Result<TimeSpan, TimeFailure> {
        Ok(self.now)
    }

    fn sleep(&mut self, span: TimeSpan) -> Result<(), TimeFailure> {
        if self.sleep_failure {
            return Err(TimeFailure::new("timer unavailable"));
        }
        self.sleeps.push(span.as_nanos());
        self.now = TimeSpan::from_nanos((self.now.as_nanos() + span.as_nanos()) as u64);
        self.checks += 1;
        Ok(())
    }

    fn helpers_finished(&mut self) -> bool {
        self.helpers_finish_after == 0 || {
            self.helpers_finish_after -= 1;
            false
        }
    }
}

#[test]
fn wait_without_timeout_or_cancellation_blocks_once() {
    let calls = Rc::new(RefCell::new(Vec::new()));
    let mut scripted = ScriptedChild::new(&calls);
    scripted.wait_result = Some(Ok(status(4)));
    let mut child = ManagedChildProcess::new(scripted, false);
    let event = wait_for_event(&mut child, &mut RecordedMonitor::new(ScriptedMonitor::new()), None, false);
    assert!(matches!(event, RunEvent::Exited(status) if status.code() == Some(4)));
    assert_eq!(*calls.borrow(), ["tree.wait"]);
}

#[test]
fn wait_times_out_with_backoff_sleeps() {
    let calls = Rc::new(RefCell::new(Vec::new()));
    let mut scripted = ScriptedChild::new(&calls);
    scripted.try_wait_results = (0..100).map(|_| Ok(None)).collect();
    let mut child = ManagedChildProcess::new(scripted, true);
    let mut monitor = ScriptedMonitor::new();
    let mut recorded = RecordedMonitor::new(monitor);
    let event = wait_for_event(&mut child, &mut recorded, Some(TimeSpan::from_millis(20)), false);
    assert!(matches!(event, RunEvent::TimedOut { status: None, timeout } if timeout == TimeSpan::from_millis(20)));
    assert_eq!(recorded.monitor.sleeps, vec![1_000_000, 2_000_000, 4_000_000, 8_000_000, 5_000_000]);
}

#[test]
fn wait_observes_cancellation_and_exit() {
    let calls = Rc::new(RefCell::new(Vec::new()));
    let mut scripted = ScriptedChild::new(&calls);
    scripted.try_wait_results = (0..10).map(|_| Ok(None)).collect();
    let mut child = ManagedChildProcess::new(scripted, true);
    let mut monitor = ScriptedMonitor::new();
    monitor.cancel_after_checks = Some(2);
    let mut recorded = RecordedMonitor::new(monitor);
    let event = wait_for_event(&mut child, &mut recorded, None, true);
    assert!(matches!(event, RunEvent::Cancelled { status: None }));
    assert_eq!(recorded.monitor.sleeps, vec![10_000_000, 10_000_000]);

    let mut exiting = ScriptedChild::new(&calls);
    exiting.try_wait_results = [Ok(None), Ok(Some(status(0)))].into_iter().collect();
    let mut child = ManagedChildProcess::new(exiting, true);
    let event = wait_for_event(&mut child, &mut RecordedMonitor::new(ScriptedMonitor::new()), Some(TimeSpan::from_secs(1)), false);
    assert!(matches!(event, RunEvent::Exited(status) if status.success()));
}

#[test]
fn wait_reports_sleep_failure_as_time_failure() {
    let calls = Rc::new(RefCell::new(Vec::new()));
    let mut scripted = ScriptedChild::new(&calls);
    scripted.try_wait_results = [Ok(None)].into_iter().collect();
    let mut child = ManagedChildProcess::new(scripted, true);
    let mut monitor = ScriptedMonitor::new();
    monitor.sleep_failure = true;
    let mut recorded = RecordedMonitor::new(monitor);
    let event = wait_for_event(&mut child, &mut recorded, None, true);
    assert!(matches!(event, RunEvent::TimeFailed { status: None, .. }));
}

#[test]
fn helpers_are_waited_for_within_the_original_timeout() {
    let mut monitor = ScriptedMonitor::new();
    monitor.helpers_finish_after = 2;
    let mut recorded = RecordedMonitor::new(monitor);
    let event = wait_for_helpers(&mut recorded, status(3), Some(TimeSpan::from_secs(1)), false);
    assert!(matches!(event, RunEvent::Exited(status) if status.code() == Some(3)));

    let mut stuck = ScriptedMonitor::new();
    stuck.helpers_finish_after = usize::MAX;
    stuck.now = TimeSpan::from_secs(2);
    let mut recorded_stuck = RecordedMonitor::new(stuck);
    let event = wait_for_helpers(&mut recorded_stuck, status(3), Some(TimeSpan::from_secs(1)), false);
    assert!(matches!(event, RunEvent::TimedOut { status: Some(status), .. } if status.code() == Some(3)));

    let event = wait_for_helpers(&mut RecordedMonitor::new(ScriptedMonitor::new()), status(5), None, false);
    assert!(matches!(event, RunEvent::Exited(status) if status.code() == Some(5)));
}
