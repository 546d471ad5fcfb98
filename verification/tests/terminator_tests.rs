use std::cell::RefCell;
use std::collections::VecDeque;
use std::rc::Rc;

use qubit_command::stop::StopReason;
use qubit_command::terminator::process_tree_already_exited;
use qubit_command::terminator::terminate_process;
use qubit_command::terminator::ChildControl;
use qubit_command::terminator::ManagedChildProcess;
use qubit_command::terminator::ProcessTerminationError;
use qubit_command::terminator::NO_SUCH_PROCESS;
use qubit_command::CommandCleanupFailure;
use qubit_command::CommandErrorKind;
use qubit_command::ExitStatus;
use qubit_command::IoFailure;
use qubit_command::IoFailureKind;
use qubit_command::TimeSpan;

/// Unwraps a value whose failure side has no `Debug` rendering.
trait Must<T> {
    fn must(self, message: &str) -> T;
}

impl<T> Must<T> for Option<T> {
    fn must(self, message: &str) -> T {
        match self {
            Some(value) => value,
            None => panic!("{message}"),
        }
    }
}

impl<T, E> Must<T> for Result<T, E> {
    fn must(self, message: &str) -> T {
        match self {
            Ok(value) => value,
            Err(_) => panic!("{message}"),
        }
    }
}


fn status(code: i32) -> ExitStatus {
    ExitStatus::exited(code)
}

fn other(message: &str) -> IoFailure {
    IoFailure::new(IoFailureKind::Other, None, message.to_string())
}

fn process_tree_not_found() -> IoFailure {
    IoFailure::new(IoFailureKind::Other, Some(NO_SUCH_PROCESS), "No such process".to_string())
}

/// A child whose answers are scripted and whose calls are logged.
struct ScriptedChild {
    calls: Rc<RefCell<Vec<String>>>,
    tree_kill_error: Option<IoFailure>,
    child_kill_error: Option<IoFailure>,
    wait_result: Option<Result<ExitStatus, IoFailure>>,
    try_wait_results: VecDeque<Result<Option<ExitStatus>, IoFailure>>,
}

impl ScriptedChild {
    fn new(calls: &Rc<RefCell<Vec<String>>>) -> Self {
        ScriptedChild {
            calls: Rc::clone(calls),
            tree_kill_error: None,
            child_kill_error: None,
            wait_result: None,
            try_wait_results: VecDeque::new(),
        }
    }

    fn tree_kill_error(mut self, source: IoFailure) -> Self {
        self.tree_kill_error = Some(source);
        self
    }

    fn child_kill_error(mut self, source: IoFailure) -> Self {
        self.child_kill_error = Some(source);
        self
    }

    fn wait_status(mut self, exit_status: ExitStatus) -> Self {
        self.wait_result = Some(Ok(exit_status));
        self
    }

    fn wait_error(mut self, source: IoFailure) -> Self {
        self.wait_result = Some(Err(source));
        self
    }

    fn try_wait_results(mut self, results: impl IntoIterator<Item = Result<Option<ExitStatus>, IoFailure>>) -> Self {
        self.try_wait_results.extend(results);
        self
    }

    fn record(&self, operation: &str) {
        self.calls.borrow_mut().push(operation.to_string());
    }
}

impl ChildControl for ScriptedChild {
    fn start_kill_tree(&mut self) -> Result<(), IoFailure> {
        self.record("tree.kill");
        match self.tree_kill_error.take() {
            Some(source) => Err(source),
            None => Ok(()),
        }
    }

    fn start_kill_child(&mut self) -> Result<(), IoFailure> {
        self.record("child.kill");
        match self.child_kill_error.take() {
            Some(source) => Err(source),
            None => Ok(()),
        }
    }

    fn try_wait(&mut self) -> Result<Option<ExitStatus>, IoFailure> {
        self.record("tree.try_wait");
        self.try_wait_results.pop_front().unwrap_or(Ok(Some(status(0))))
    }

    fn wait(&mut self) -> Result<ExitStatus, IoFailure> {
        self.record("tree.wait");
        self.wait_result.take().unwrap_or(Ok(status(0)))
    }
}

#[test]
fn process_terminator_test_process_terminator_treats_not_found_tree_as_exit_race() {
    let calls = Rc::new(RefCell::new(Vec::new()));
    let tree = ScriptedChild::new(&calls)
        .tree_kill_error(process_tree_not_found())
        .try_wait_results([Ok(Some(status(17)))]);
    let mut child = ManagedChildProcess::new(tree, true);

    let outcome = terminate_process(&mut child, None).must("not-found race should retain the final status");

    assert_eq!(outcome.status.code(), Some(17));
    assert!(outcome.cleanup_failures.is_empty());
    assert_eq!(*calls.borrow(), ["tree.kill", "tree.try_wait"]);
}

#[test]
fn process_terminator_test_process_terminator_falls_back_to_direct_child_after_tree_failure() {
    let calls = Rc::new(RefCell::new(Vec::new()));
    let tree = ScriptedChild::new(&calls)
        .tree_kill_error(other("tree kill failed"))
        .try_wait_results((0..8).map(|_| Ok(None)))
        .wait_status(status(18));
    let mut child = ManagedChildProcess::new(tree, true);

    let outcome = terminate_process(&mut child, None).must("direct-child fallback should recover termination");

    assert_eq!(outcome.status.code(), Some(18));
    assert_eq!(outcome.cleanup_failures.len(), 1);
    let calls = calls.borrow();
    assert_eq!(calls.first().map(String::as_str), Some("tree.kill"));
    assert_eq!(calls.get(9).map(String::as_str), Some("child.kill"));
    assert_eq!(calls.last().map(String::as_str), Some("tree.wait"));
}

#[test]
fn test_process_terminator_waits_after_successful_tree_termination() {
    let calls = Rc::new(RefCell::new(Vec::new()));
    let tree = ScriptedChild::new(&calls);
    let mut child = ManagedChildProcess::new(tree, true);

    let outcome = terminate_process(&mut child, None).must("successful tree termination should wait for final status");

    assert!(outcome.status.success());
    assert!(outcome.cleanup_failures.is_empty());
    assert_eq!(*calls.borrow(), ["tree.kill", "tree.wait"]);
}

#[test]
fn test_process_terminator_observes_completed_child_after_tree_failure() {
    let calls = Rc::new(RefCell::new(Vec::new()));
    let expected_status = status(0);
    let tree = ScriptedChild::new(&calls)
        .tree_kill_error(other("tree kill failed"))
        .try_wait_results([Ok(Some(expected_status))]);
    let mut child = ManagedChildProcess::new(tree, true);

    let outcome =
        terminate_process(&mut child, None).must("completed child status should resolve tree-kill failure");

    assert_eq!(outcome.status, expected_status);
    assert_eq!(outcome.cleanup_failures.len(), 1);
    assert_eq!(*calls.borrow(), ["tree.kill", "tree.try_wait"]);
}

#[test]
fn process_terminator_test_process_termination_maps_timeout_and_cancellation_kill_failures() {
    let cases = [
        (StopReason::TimedOut { timeout: TimeSpan::from_secs(2), status: None }, CommandErrorKind::TimedOut),
        (StopReason::Cancelled { status: None }, CommandErrorKind::Cancelled),
    ];

    for (reason, expected_kind) in cases {
        let error = ProcessTerminationError {
            cleanup_failures: vec![
                CommandCleanupFailure::ProcessTreeTermination { source: other("tree kill failed") },
                CommandCleanupFailure::ChildTermination { source: other("child kill failed") },
            ],
        }
        .into_command_error(reason, "command");
        assert_eq!(error.kind(), expected_kind);
    }
}

#[test]
fn test_process_terminator_retains_every_failure_without_waiting_after_failed_kills() {
    for wait_error in [false, true] {
        let calls = Rc::new(RefCell::new(Vec::new()));
        let last = if wait_error { Err(other("status failed")) } else { Ok(None) };
        let tree = ScriptedChild::new(&calls)
            .child_kill_error(other("child denied"))
            .tree_kill_error(other("tree denied"))
            .try_wait_results((0..8).map(|_| Ok(None)).chain(std::iter::once(last)));
        let mut child = ManagedChildProcess::new(tree, true);
        let error = terminate_process(&mut child, None).err().must("both rejected kills must fail");
        assert_eq!(error.cleanup_failures.len(), if wait_error { 3 } else { 2 });
        assert!(matches!(error.cleanup_failures[0], CommandCleanupFailure::ProcessTreeTermination { .. }));
        assert!(matches!(error.cleanup_failures[1], CommandCleanupFailure::ChildTermination { .. }));
        if wait_error {
            assert!(matches!(error.cleanup_failures[2], CommandCleanupFailure::Wait { .. }));
        }
        let calls = calls.borrow();
        assert!(!calls.iter().any(|call| call.ends_with(".wait")));
        assert_eq!(calls.iter().filter(|call| call.as_str() == "child.kill").count(), 1);
    }
}

#[test]
fn test_process_terminator_keeps_tree_failure_when_fallback_wait_fails() {
    let calls = Rc::new(RefCell::new(Vec::new()));
    let tree = ScriptedChild::new(&calls)
        .tree_kill_error(other("tree denied"))
        .try_wait_results([Err(other("initial status failed"))])
        .wait_error(other("final status failed"));
    let mut child = ManagedChildProcess::new(tree, true);
    let error = terminate_process(&mut child, None).err().must("wait failure must be retained");
    assert!(matches!(
        error.cleanup_failures.as_slice(),
        [
            CommandCleanupFailure::ProcessTreeTermination { .. },
            CommandCleanupFailure::Wait { .. },
            CommandCleanupFailure::Wait { .. }
        ]
    ));
    assert!(calls.borrow().contains(&"child.kill".to_owned()));
}

#[test]
fn test_process_terminator_does_not_wait_for_observed_status() {
    for managed in [false, true] {
        let calls = Rc::new(RefCell::new(Vec::new()));
        let tree = ScriptedChild::new(&calls).tree_kill_error(other("tree denied"));
        let mut child = ManagedChildProcess::new(tree, managed);
        let result = terminate_process(&mut child, Some(status(9))).must("observed status must survive");
        assert_eq!(result.status.code(), Some(9));
        assert_eq!(result.cleanup_failures.len(), usize::from(managed));
        assert!(!calls.borrow().iter().any(|call| call.ends_with("wait")));
    }
}

#[test]
fn unmanaged_child_is_killed_directly_and_waited() {
    let calls = Rc::new(RefCell::new(Vec::new()));
    let direct = ScriptedChild::new(&calls).wait_status(status(5));
    let mut child = ManagedChildProcess::new(direct, false);

    let outcome = terminate_process(&mut child, None).must("direct kill should succeed");

    assert_eq!(outcome.status.code(), Some(5));
    assert!(outcome.cleanup_failures.is_empty());
    assert_eq!(*calls.borrow(), ["child.kill", "tree.wait"]);
}

#[test]
fn not_found_tree_failure_is_kept_when_the_direct_child_must_be_killed() {
    let calls = Rc::new(RefCell::new(Vec::new()));
    let tree = ScriptedChild::new(&calls)
        .tree_kill_error(process_tree_not_found())
        .try_wait_results((0..8).map(|_| Ok(None)))
        .wait_status(status(1));
    let mut child = ManagedChildProcess::new(tree, true);

    let outcome = terminate_process(&mut child, None).must("direct kill should succeed");

    assert_eq!(outcome.status.code(), Some(1));
    assert!(matches!(
        outcome.cleanup_failures.as_slice(),
        [CommandCleanupFailure::ProcessTreeTermination { source }] if source.raw_os_error() == Some(NO_SUCH_PROCESS)
    ));
}

#[test]
fn only_no_such_process_means_the_tree_already_exited() {
    assert!(process_tree_already_exited(&process_tree_not_found()));
    assert!(!process_tree_already_exited(&other("denied")));
    assert!(!process_tree_already_exited(&IoFailure::new(IoFailureKind::NotFound, Some(2), "gone".to_string())));
}

#[test]
fn process_terminator_tests_test_process_terminator_falls_back_to_direct_child_after_tree_failure() {
    let calls = Rc::new(RefCell::new(Vec::new()));
    let tree = ScriptedChild::new(&calls)
        .tree_kill_error(other("tree kill failed"))
        .try_wait_results((0..8).map(|_| Ok(None)))
        .wait_status(status(18));
    let mut child = ManagedChildProcess::new(tree, true);

    let outcome = terminate_process(&mut child, None).must("direct-child fallback should recover termination");

    assert_eq!(outcome.status.code(), Some(18));
    assert_eq!(outcome.cleanup_failures.len(), 1);
    let calls = calls.borrow();
    assert_eq!(calls.first().map(String::as_str), Some("tree.kill"));
    assert_eq!(calls.get(9).map(String::as_str), Some("child.kill"));
    assert_eq!(calls.last().map(String::as_str), Some("tree.wait"));
}
