//! Terminating a child process, or the process tree it leads, and
//! collecting its final status along with every failure met on the way.

use vstd::prelude::*;

use crate::CommandCleanupFailure;
use crate::ExitStatus;
use crate::IoFailure;

verus! {

/// Operating-system code reporting that no such process exists (`ESRCH`).
pub const NO_SUCH_PROCESS: i32 = 3;

/// Number of exit checks made after a failed process-tree kill.
pub const KILL_FAILURE_EXIT_CHECK_ATTEMPTS: usize = 8;

/// Control over a spawned child process.
///
/// Implementations report what the operating system reports; nothing is
/// assumed about the values they return.
pub trait ChildControl {
    /// Starts killing the whole process tree led by the child.
    fn start_kill_tree(&mut self) -> Result<(), IoFailure>;

    /// Starts killing the direct child only.
    fn start_kill_child(&mut self) -> Result<(), IoFailure>;

    /// Returns the child's status if it has exited, without blocking.
    fn try_wait(&mut self) -> Result<Option<ExitStatus>, IoFailure>;

    /// Blocks until the child exits and returns its status.
    fn wait(&mut self) -> Result<ExitStatus, IoFailure>;

    /// Pauses briefly between two exit checks.
    fn pause_between_exit_checks(&mut self) {
    }
}

/// One call made to a child, with the child's answer.
pub enum ChildCall {
    /// `start_kill_tree` and its result.
    KillTree(Result<(), IoFailure>),
    /// `start_kill_child` and its result.
    KillChild(Result<(), IoFailure>),
    /// `try_wait` and its result.
    TryWait(Result<Option<ExitStatus>, IoFailure>),
    /// `wait` and its result.
    Wait(Result<ExitStatus, IoFailure>),
    /// `pause_between_exit_checks`.
    Pause,
}

/// A spawned child and whether it leads a process tree that is terminated
/// as a whole.
///
/// The library talks to the child only through the methods below, which
/// record every call with the child's answer; contracts speak of that
/// record.
pub struct ManagedChildProcess<C> {
    /// The child.
    pub child: C,
    /// Whether the child leads a managed process tree.
    pub process_tree_managed: bool,
    /// Every call the library made to the child, in order, with its answer.
    pub calls: Ghost<Seq<ChildCall>>,
}

impl<C> ManagedChildProcess<C> {
    /// Wraps a child.
    pub fn new(child: C, process_tree_managed: bool) -> (managed: Self)
        ensures
            managed.child == child,
            managed.process_tree_managed == process_tree_managed,
            managed.calls() == Seq::<ChildCall>::empty(),
    {
        ManagedChildProcess { child, process_tree_managed, calls: Ghost(Seq::empty()) }
    }

    /// The calls the library made to the child so far, with their answers.
    pub open spec fn calls(&self) -> Seq<ChildCall> {
        self.calls@
    }

    /// Whether the child leads a managed process tree.
    pub fn process_tree_managed(&self) -> (managed: bool)
        ensures
            managed == self.process_tree_managed,
    {
        self.process_tree_managed
    }
}

impl<C: ChildControl> ManagedChildProcess<C> {
    /// Starts killing the process tree, recording the call.
    pub fn kill_tree(&mut self) -> (result: Result<(), IoFailure>)
        ensures
            final(self).process_tree_managed == old(self).process_tree_managed,
            final(self).calls() == old(self).calls().push(ChildCall::KillTree(result)),
    {
        let result = self.child.start_kill_tree();
        self.calls = Ghost(self.calls@.push(ChildCall::KillTree(result)));
        result
    }

    /// Starts killing the direct child, recording the call.
    pub fn kill_child(&mut self) -> (result: Result<(), IoFailure>)
        ensures
            final(self).process_tree_managed == old(self).process_tree_managed,
            final(self).calls() == old(self).calls().push(ChildCall::KillChild(result)),
    {
        let result = self.child.start_kill_child();
        self.calls = Ghost(self.calls@.push(ChildCall::KillChild(result)));
        result
    }

    /// Checks without blocking whether the child exited, recording the call.
    pub fn try_wait(&mut self) -> (result: Result<Option<ExitStatus>, IoFailure>)
        ensures
            final(self).process_tree_managed == old(self).process_tree_managed,
            final(self).calls() == old(self).calls().push(ChildCall::TryWait(result)),
    {
        let result = self.child.try_wait();
        self.calls = Ghost(self.calls@.push(ChildCall::TryWait(result)));
        result
    }

    /// Waits for the child to exit, recording the call.
    pub fn wait(&mut self) -> (result: Result<ExitStatus, IoFailure>)
        ensures
            final(self).process_tree_managed == old(self).process_tree_managed,
            final(self).calls() == old(self).calls().push(ChildCall::Wait(result)),
    {
        let result = self.child.wait();
        self.calls = Ghost(self.calls@.push(ChildCall::Wait(result)));
        result
    }

    /// Pauses between two exit checks, recording the call.
    pub fn pause(&mut self)
        ensures
            final(self).process_tree_managed == old(self).process_tree_managed,
            final(self).calls() == old(self).calls().push(ChildCall::Pause),
    {
        self.child.pause_between_exit_checks();
        self.calls = Ghost(self.calls@.push(ChildCall::Pause));
    }
}

/// Final status of a terminated child and the failures met while
/// terminating it.
pub struct ProcessTerminationOutcome {
    /// Final status.
    pub status: ExitStatus,
    /// Failures met, in the order they happened.
    pub cleanup_failures: Vec<CommandCleanupFailure>,
}

/// Termination that ended without a final status.
pub struct ProcessTerminationError {
    /// Failures met, in the order they happened.
    pub cleanup_failures: Vec<CommandCleanupFailure>,
}

impl ProcessTerminationError {
    /// Returns the failures met.
    pub fn into_cleanup_failures(self) -> (failures: Vec<CommandCleanupFailure>)
        ensures
            failures@ == self.cleanup_failures@,
    {
        self.cleanup_failures
    }
}

/// Whether a failed process-tree kill only means that the tree had already
/// exited.
pub open spec fn tree_already_exited(source: IoFailure) -> bool {
    source.raw_os_error == Some(NO_SUCH_PROCESS)
}

/// Whether a failed process-tree kill only means that the tree had already
/// exited.
pub fn process_tree_already_exited(source: &IoFailure) -> (gone: bool)
    ensures
        gone == tree_already_exited(*source),
{
    match source.raw_os_error {
        Some(code) => code == NO_SUCH_PROCESS,
        None => false,
    }
}

/// The responses a child gives during termination, in the order asked.
pub struct TerminationResponses {
    /// Result of killing the process tree.
    pub tree_kill: Result<(), IoFailure>,
    /// Results of the exit checks made after a failed tree kill.
    pub exit_checks: Seq<Result<Option<ExitStatus>, IoFailure>>,
    /// Result of killing the direct child.
    pub child_kill: Result<(), IoFailure>,
    /// Result of the exit check after a failed direct-child kill.
    pub child_check: Result<Option<ExitStatus>, IoFailure>,
    /// Result of the final blocking wait.
    pub final_wait: Result<ExitStatus, IoFailure>,
}

/// What a series of exit checks found.
pub enum ExitScan {
    /// The child had exited with this status.
    Exited(ExitStatus),
    /// An exit check failed.
    CheckFailed(IoFailure),
    /// Every check found the child still running.
    StillRunning,
}

/// The first decisive answer among exit checks.
pub open spec fn scan_exit_checks(checks: Seq<Result<Option<ExitStatus>, IoFailure>>) -> ExitScan
    decreases checks.len(),
{
    if checks.len() == 0 {
        ExitScan::StillRunning
    } else {
        match checks[0] {
            Ok(Some(status)) => ExitScan::Exited(status),
            Err(source) => ExitScan::CheckFailed(source),
            Ok(None) => scan_exit_checks(checks.drop_first()),
        }
    }
}

/// Adding one check to a series whose checks all found the child running
/// decides by that check.
pub proof fn lemma_scan_exit_checks_push(
    checks: Seq<Result<Option<ExitStatus>, IoFailure>>,
    check: Result<Option<ExitStatus>, IoFailure>,
)
    requires
        scan_exit_checks(checks) is StillRunning,
    ensures
        scan_exit_checks(checks.push(check)) == match check {
            Ok(Some(status)) => ExitScan::Exited(status),
            Err(source) => ExitScan::CheckFailed(source),
            Ok(None) => ExitScan::StillRunning,
        },
    decreases checks.len(),
{
    reveal_with_fuel(scan_exit_checks, 2);
    if checks.len() > 0 {
        assert(checks[0] == Ok::<Option<ExitStatus>, IoFailure>(None));
        assert(scan_exit_checks(checks.drop_first()) is StillRunning);
        assert(checks.push(check).drop_first() =~= checks.drop_first().push(check));
        assert(checks.push(check)[0] == checks[0]);
        lemma_scan_exit_checks_push(checks.drop_first(), check);
    } else {
        assert(checks.push(check) =~= seq![check]);
        assert(seq![check].drop_first() =~= Seq::<Result<Option<ExitStatus>, IoFailure>>::empty());
    }
}

/// Termination outcome as plain values: the final status with the failures
/// met, or the failures met when no final status was obtained.
pub type TerminationResult = Result<(ExitStatus, Seq<CommandCleanupFailure>), Seq<CommandCleanupFailure>>;

/// Outcome after killing the direct child, given the failures met before.
pub open spec fn after_child_kill(failures: Seq<CommandCleanupFailure>, responses: TerminationResponses) -> TerminationResult {
    match responses.child_kill {
        Ok(()) => match responses.final_wait {
            Ok(status) => Ok((status, failures)),
            Err(source) => Err(failures.push(CommandCleanupFailure::Wait { source })),
        },
        Err(source) => {
            let failures = failures.push(CommandCleanupFailure::ChildTermination { source });
            match responses.child_check {
                Ok(Some(status)) => Ok((status, failures)),
                Ok(None) => Err(failures),
                Err(wait_source) => Err(failures.push(CommandCleanupFailure::Wait { source: wait_source })),
            }
        },
    }
}

/// The termination protocol.
///
/// A managed tree is killed as a whole; after success the final status is
/// the observed one or the one the final wait reports. When the tree kill
/// fails, an observed status ends termination at once; otherwise up to
/// [`KILL_FAILURE_EXIT_CHECK_ATTEMPTS`] exit checks look for an exit, and
/// when none is found the direct child is killed. A tree-kill failure that
/// only means the tree had already exited is dropped once an exit status is
/// known. An unmanaged child with an observed status is left alone.
pub open spec fn termination_result(
    managed: bool,
    observed: Option<ExitStatus>,
    responses: TerminationResponses,
) -> TerminationResult {
    if managed {
        match responses.tree_kill {
            Ok(()) => match observed {
                Some(status) => Ok((status, seq![])),
                None => match responses.final_wait {
                    Ok(status) => Ok((status, seq![])),
                    Err(source) => Err(seq![CommandCleanupFailure::Wait { source }]),
                },
            },
            Err(source) => {
                let tree_failure = seq![CommandCleanupFailure::ProcessTreeTermination { source }];
                let kept = if tree_already_exited(source) {
                    Seq::<CommandCleanupFailure>::empty()
                } else {
                    tree_failure
                };
                match observed {
                    Some(status) => Ok((status, kept)),
                    None => match scan_exit_checks(responses.exit_checks) {
                        ExitScan::Exited(status) => Ok((status, kept)),
                        ExitScan::CheckFailed(wait_source) => after_child_kill(
                            tree_failure.push(CommandCleanupFailure::Wait { source: wait_source }),
                            responses,
                        ),
                        ExitScan::StillRunning => after_child_kill(tree_failure, responses),
                    },
                }
            },
        }
    } else {
        match observed {
            Some(status) => Ok((status, seq![])),
            None => after_child_kill(seq![], responses),
        }
    }
}

/// The responses are ones a termination can receive: at most the allowed
/// number of exit checks, all of them made when none was decisive.
pub open spec fn responses_possible(
    managed: bool,
    observed: Option<ExitStatus>,
    responses: TerminationResponses,
) -> bool {
    &&& responses.exit_checks.len() <= KILL_FAILURE_EXIT_CHECK_ATTEMPTS
    &&& (managed && responses.tree_kill is Err && observed is None && scan_exit_checks(
        responses.exit_checks,
    ) is StillRunning) ==> responses.exit_checks.len() == KILL_FAILURE_EXIT_CHECK_ATTEMPTS
}

/// The calls made by a series of exit checks: each check, followed by a
/// pause when it found the child running and another check is allowed.
pub open spec fn exit_check_calls(checks: Seq<Result<Option<ExitStatus>, IoFailure>>) -> Seq<ChildCall>
    decreases checks.len(),
{
    if checks.len() == 0 {
        Seq::empty()
    } else {
        let last = checks.last();
        let pause = if last == Ok::<Option<ExitStatus>, IoFailure>(None) && checks.len()
            < KILL_FAILURE_EXIT_CHECK_ATTEMPTS {
            seq![ChildCall::Pause]
        } else {
            Seq::empty()
        };
        exit_check_calls(checks.drop_last()) + seq![ChildCall::TryWait(last)] + pause
    }
}

/// The calls made when the direct child is killed: the kill, then a
/// blocking wait after success or one exit check after failure.
pub open spec fn child_kill_calls(responses: TerminationResponses) -> Seq<ChildCall> {
    seq![ChildCall::KillChild(responses.child_kill)] + match responses.child_kill {
        Ok(()) => seq![ChildCall::Wait(responses.final_wait)],
        Err(_) => seq![ChildCall::TryWait(responses.child_check)],
    }
}

/// The calls the termination protocol makes, with the answers in
/// `responses`, in order.
pub open spec fn termination_calls(
    managed: bool,
    observed: Option<ExitStatus>,
    responses: TerminationResponses,
) -> Seq<ChildCall> {
    if managed {
        seq![ChildCall::KillTree(responses.tree_kill)] + match responses.tree_kill {
            Ok(()) => match observed {
                Some(_) => Seq::empty(),
                None => seq![ChildCall::Wait(responses.final_wait)],
            },
            Err(_) => match observed {
                Some(_) => Seq::empty(),
                None => exit_check_calls(responses.exit_checks) + match scan_exit_checks(
                    responses.exit_checks,
                ) {
                    ExitScan::Exited(_) => Seq::empty(),
                    _ => child_kill_calls(responses),
                },
            },
        }
    } else {
        match observed {
            Some(_) => Seq::empty(),
            None => child_kill_calls(responses),
        }
    }
}

/// The child was terminated by the protocol: the calls recorded since
/// `before` are exactly the protocol's calls, with `responses` as the
/// child's answers, and the responses are ones a termination can receive.
pub open spec fn terminated_as(
    before: Seq<ChildCall>,
    after: Seq<ChildCall>,
    managed: bool,
    observed: Option<ExitStatus>,
    responses: TerminationResponses,
) -> bool {
    &&& responses_possible(managed, observed, responses)
    &&& after == before + termination_calls(managed, observed, responses)
}

/// The executable outcome carries the plain-value outcome.
pub open spec fn outcome_is(
    result: Result<ProcessTerminationOutcome, ProcessTerminationError>,
    expected: TerminationResult,
) -> bool {
    match (result, expected) {
        (Ok(outcome), Ok((status, failures))) => outcome.status == status && outcome.cleanup_failures@
            == failures,
        (Err(error), Err(failures)) => error.cleanup_failures@ == failures,
        _ => false,
    }
}

/// Terminates a managed child following [`termination_result`]: the calls
/// made to the child are the protocol's ([`termination_calls`]), and the
/// outcome is the one the protocol prescribes for the answers the child
/// gave to them.
pub fn terminate_process<C: ChildControl>(child: &mut ManagedChildProcess<C>, observed_status: Option<ExitStatus>) -> (result: Result<
        ProcessTerminationOutcome,
        ProcessTerminationError,
    >)
        ensures
            final(child).process_tree_managed == old(child).process_tree_managed,
            exists|responses: TerminationResponses|
                {
                    &&& terminated_as(
                        old(child).calls(),
                        final(child).calls(),
                        old(child).process_tree_managed,
                        observed_status,
                        responses,
                    )
                    &&& #[trigger] outcome_is(
                        result,
                        termination_result(
                            old(child).process_tree_managed,
                            observed_status,
                            responses,
                        ),
                    )
                },
            observed_status.is_some() ==> result is Ok && result->Ok_0.status == observed_status.unwrap(),
    {
        let managed = child.process_tree_managed;
        assert(managed == old(child).process_tree_managed);
        let ghost calls0 = child.calls();
        let ghost mut responses = TerminationResponses {
            tree_kill: Ok(()),
            exit_checks: Seq::empty(),
            child_kill: Ok(()),
            child_check: Ok(None),
            final_wait: vstd::pervasive::arbitrary(),
        };
        let mut failures: Vec<CommandCleanupFailure> = Vec::new();
        if managed {
            let tree_kill = child.kill_tree();
            proof {
                responses.tree_kill = tree_kill;
            }
            match tree_kill {
                Ok(()) => {
                    let ghost after_kill = child.calls();
                    let result = finish_wait(child, observed_status, failures);
                    proof {
                        responses.final_wait = result.1@;
                        assert(after_kill == calls0.push(ChildCall::KillTree(tree_kill)));
                        match observed_status {
                            Some(_) => {
                                assert(termination_calls(managed, observed_status, responses) =~= seq![
                                    ChildCall::KillTree(tree_kill),
                                ]);
                            },
                            None => {
                                assert(termination_calls(managed, observed_status, responses) =~= seq![
                                    ChildCall::KillTree(tree_kill),
                                    ChildCall::Wait(responses.final_wait),
                                ]);
                            },
                        }
                    }
                    let result = result.0;
                    proof {
                        match responses.final_wait {
                            Err(source) => {
                                if observed_status.is_none() {
                                    assert(result.is_err());
                                    assert(Seq::<CommandCleanupFailure>::empty().push(
                                        CommandCleanupFailure::Wait { source },
                                    ) =~= seq![CommandCleanupFailure::Wait { source }]);
                                }
                            },
                            Ok(_) => {},
                        }
                        assert(responses_possible(managed, observed_status, responses));
                        assert(outcome_is(result, termination_result(managed, observed_status, responses)));
                        assert(child.calls() =~= calls0 + termination_calls(managed, observed_status, responses));
                    }
                    return result;
                },
                Err(source) => {
                    let gone = process_tree_already_exited(&source);
                    proof {
                        responses.tree_kill = Err(source);
                    }
                    match observed_status {
                        Some(status) => {
                            if !gone {
                                failures.push(CommandCleanupFailure::ProcessTreeTermination { source });
                            }
                            proof {
                                assert(failures@ =~= (if tree_already_exited(source) {
                                    Seq::<CommandCleanupFailure>::empty()
                                } else {
                                    seq![CommandCleanupFailure::ProcessTreeTermination { source }]
                                }));
                            }
                            let result = Ok(ProcessTerminationOutcome { status, cleanup_failures: failures });
                            proof {
                                assert(responses_possible(managed, observed_status, responses));
                        assert(outcome_is(result, termination_result(managed, observed_status, responses)));
                        assert(child.calls() =~= calls0 + termination_calls(managed, observed_status, responses));
                            }
                            return result;
                        },
                        None => {},
                    }
                    let ghost tree_source = source;
                    failures.push(CommandCleanupFailure::ProcessTreeTermination { source });
                    let mut attempt: usize = 0;
                    let mut check_failed = false;
                    while attempt < KILL_FAILURE_EXIT_CHECK_ATTEMPTS && !check_failed
                        invariant
                            attempt <= KILL_FAILURE_EXIT_CHECK_ATTEMPTS,
                            responses.exit_checks.len() == attempt,
                            responses.tree_kill == Err::<(), IoFailure>(tree_source),
                            check_failed ==> scan_exit_checks(responses.exit_checks) is CheckFailed
                                && failures@ == seq![
                                    CommandCleanupFailure::ProcessTreeTermination { source: tree_source },
                                    CommandCleanupFailure::Wait {
                                        source: scan_exit_checks(responses.exit_checks)->CheckFailed_0,
                                    },
                                ],
                            !check_failed ==> scan_exit_checks(responses.exit_checks) is StillRunning
                                && failures@ == seq![
                                    CommandCleanupFailure::ProcessTreeTermination { source: tree_source },
                                ],
                            observed_status.is_none(),
                            managed,
                            gone == tree_already_exited(tree_source),
                            managed == old(child).process_tree_managed,
                            responses.child_kill == Ok::<(), IoFailure>(()),
                            child.process_tree_managed == managed,
                            calls0 == old(child).calls(),
                            child.calls() == calls0 + seq![ChildCall::KillTree(Err(tree_source))]
                                + exit_check_calls(responses.exit_checks),
                        decreases KILL_FAILURE_EXIT_CHECK_ATTEMPTS - attempt,
                    {
                        let ghost prev_checks = responses.exit_checks;
                        let ghost prev_calls = child.calls();
                        let check = child.try_wait();
                        proof {
                            lemma_scan_exit_checks_push(responses.exit_checks, check);
                        }
                        match check {
                            Ok(Some(status)) => {
                                proof {
                                    responses.exit_checks = responses.exit_checks.push(Ok(Some(status)));
                                    assert(responses.exit_checks.drop_last() =~= prev_checks);
                                    assert(child.calls() =~= calls0 + seq![ChildCall::KillTree(Err(tree_source))]
                                        + exit_check_calls(responses.exit_checks));
                                }
                                if gone {
                                    failures.remove(0);
                                }
                                proof {
                                    assert(failures@ =~= (if tree_already_exited(tree_source) {
                                        Seq::<CommandCleanupFailure>::empty()
                                    } else {
                                        seq![CommandCleanupFailure::ProcessTreeTermination { source: tree_source }]
                                    }));
                                }
                                let result = Ok(ProcessTerminationOutcome { status, cleanup_failures: failures });
                                proof {
                                    assert(responses_possible(managed, observed_status, responses));
                        assert(outcome_is(result, termination_result(managed, observed_status, responses)));
                        assert(child.calls() =~= calls0 + termination_calls(managed, observed_status, responses));
                                }
                                return result;
                            },
                            Ok(None) => {
                                proof {
                                    responses.exit_checks = responses.exit_checks.push(Ok(None));
                                }
                            },
                            Err(wait_source) => {
                                proof {
                                    responses.exit_checks = responses.exit_checks.push(Err(wait_source));
                                }
                                failures.push(CommandCleanupFailure::Wait { source: wait_source });
                                check_failed = true;
                            },
                        }
                        proof {
                            assert(responses.exit_checks.drop_last() =~= prev_checks);
                            assert(responses.exit_checks.last() == check);
                        }
                        if attempt + 1 < KILL_FAILURE_EXIT_CHECK_ATTEMPTS && !check_failed {
                            child.pause();
                        }
                        proof {
                            assert(child.calls() =~= calls0 + seq![ChildCall::KillTree(Err(tree_source))]
                                + exit_check_calls(responses.exit_checks));
                        }
                        attempt = attempt + 1;
                    }
                    proof {
                        let tree_failure = seq![
                            CommandCleanupFailure::ProcessTreeTermination { source: tree_source },
                        ];
                        match scan_exit_checks(responses.exit_checks) {
                            ExitScan::CheckFailed(wait_source) => {
                                assert(tree_failure.push(CommandCleanupFailure::Wait { source: wait_source })
                                    =~= failures@);
                            },
                            _ => {},
                        }
                        assert(termination_result(managed, observed_status, responses) == after_child_kill(
                            failures@,
                            responses,
                        ));
                    }
                },
            }
        } else {
            match observed_status {
                Some(status) => {
                    let result = Ok(ProcessTerminationOutcome { status, cleanup_failures: failures });
                    proof {
                        assert(failures@ =~= Seq::<CommandCleanupFailure>::empty());
                        assert(responses_possible(managed, observed_status, responses));
                        assert(outcome_is(result, termination_result(managed, observed_status, responses)));
                        assert(child.calls() =~= calls0 + termination_calls(managed, observed_status, responses));
                    }
                    return result;
                },
                None => {},
            }
        }
        let ghost before_child = failures@;
        proof {
            assert(termination_result(managed, observed_status, responses) == after_child_kill(
                before_child,
                responses,
            ));
        }
        let ghost pre_kill = child.calls();
        let ghost pre_rel: Seq<ChildCall> = if managed {
            seq![ChildCall::KillTree(responses.tree_kill)] + exit_check_calls(responses.exit_checks)
        } else {
            Seq::empty()
        };
        proof {
            assert(pre_kill =~= calls0 + pre_rel);
        }
        let child_kill = child.kill_child();
        proof {
            responses.child_kill = child_kill;
        }
        match child_kill {
            Ok(()) => {
                let result = finish_wait(child, None, failures);
                proof {
                    responses.final_wait = result.1@;
                }
                let result = result.0;
                proof {
                    assert(outcome_is(result, after_child_kill(before_child, responses)));
                    assert(responses_possible(managed, observed_status, responses));
                    assert(outcome_is(result, termination_result(managed, observed_status, responses)));
                    assert(termination_calls(managed, observed_status, responses) =~= pre_rel + child_kill_calls(
                        responses,
                    ));
                    assert(child.calls() =~= pre_kill + child_kill_calls(responses));
                    assert(child.calls() =~= calls0 + termination_calls(managed, observed_status, responses));
                }
                result
            },
            Err(source) => {
                proof {
                    responses.child_kill = Err(source);
                }
                failures.push(CommandCleanupFailure::ChildTermination { source });
                let check = child.try_wait();
                proof {
                    responses.child_check = check;
                }
                let result = match check {
                    Ok(Some(status)) => Ok(ProcessTerminationOutcome { status, cleanup_failures: failures }),
                    Ok(None) => Err(ProcessTerminationError { cleanup_failures: failures }),
                    Err(wait_source) => {
                        failures.push(CommandCleanupFailure::Wait { source: wait_source });
                        Err(ProcessTerminationError { cleanup_failures: failures })
                    },
                };
                proof {
                    assert(outcome_is(result, after_child_kill(before_child, responses)));
                    assert(responses_possible(managed, observed_status, responses));
                    assert(outcome_is(result, termination_result(managed, observed_status, responses)));
                    assert(termination_calls(managed, observed_status, responses) =~= pre_rel + child_kill_calls(
                        responses,
                    ));
                    assert(child.calls() =~= pre_kill + child_kill_calls(responses));
                    assert(child.calls() =~= calls0 + termination_calls(managed, observed_status, responses));
                }
                result
            },
        }
    }

/// Uses the known status, or waits for the final one; returns the outcome
/// and the response of the wait (or an unused placeholder).
fn finish_wait<C: ChildControl>(
    child: &mut ManagedChildProcess<C>,
    status: Option<ExitStatus>,
    failures: Vec<CommandCleanupFailure>,
) -> (result: (Result<ProcessTerminationOutcome, ProcessTerminationError>, Ghost<Result<ExitStatus, IoFailure>>))
    ensures
        final(child).process_tree_managed == old(child).process_tree_managed,
        match status {
            Some(_) => final(child).calls() == old(child).calls(),
            None => final(child).calls() == old(child).calls().push(ChildCall::Wait(result.1@)),
        },
        match status {
            Some(known) => outcome_is(result.0, Ok((known, failures@))),
            None => match result.1@ {
                Ok(final_status) => outcome_is(result.0, Ok((final_status, failures@))),
                Err(source) => outcome_is(
                    result.0,
                    Err(failures@.push(CommandCleanupFailure::Wait { source })),
                ),
            },
        },
{
    let mut failures = failures;
    match status {
        Some(known) => (Ok(ProcessTerminationOutcome { status: known, cleanup_failures: failures }), Ghost(vstd::pervasive::arbitrary())),
        None => {
            let waited = child.wait();
            let ghost response = waited;
            match waited {
                Ok(final_status) => (
                    Ok(ProcessTerminationOutcome { status: final_status, cleanup_failures: failures }),
                    Ghost(response),
                ),
                Err(source) => {
                    failures.push(CommandCleanupFailure::Wait { source });
                    (Err(ProcessTerminationError { cleanup_failures: failures }), Ghost(response))
                },
            }
        },
    }
}

} // verus!
