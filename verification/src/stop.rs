//! Why a run stopped before its output could be collected normally, how the
//! waiting loop decides when to stop, and how the final error of a stopped
//! run is assembled from the termination and helper outcomes.

use vstd::prelude::*;

use crate::command_cleanup_failure::canonical_order;
use crate::command_error::helper_cleanup_prefix;
use crate::terminator::ProcessTerminationError;
use crate::terminator::ProcessTerminationOutcome;
use crate::CommandCleanupFailure;
use crate::CommandError;
use crate::CommandErrorReason;
use crate::CommandOutput;
use crate::ExitStatus;
use crate::IoFailure;
use crate::TimeFailure;
use crate::TimeSpan;

verus! {

/// What ended the wait for a command.
#[derive(Debug)]
pub enum RunEvent {
    /// The process exited and its helpers finished.
    Exited(ExitStatus),
    /// The timeout elapsed; the status is known when the process had exited.
    TimedOut {
        /// The configured timeout.
        timeout: TimeSpan,
        /// Status observed before the timeout, if any.
        status: Option<ExitStatus>,
    },
    /// Cancellation was requested.
    Cancelled {
        /// Status observed before cancellation, if any.
        status: Option<ExitStatus>,
    },
    /// Waiting for the process failed.
    WaitFailed(IoFailure),
    /// The clock or timer failed.
    TimeFailed {
        /// Clock or timer error.
        source: TimeFailure,
        /// Status observed before the failure, if any.
        status: Option<ExitStatus>,
    },
}

/// Why a run stopped before its output was collected normally.
#[derive(Debug)]
pub enum StopReason {
    /// The timeout elapsed.
    TimedOut {
        /// The configured timeout.
        timeout: TimeSpan,
        /// Status observed before the timeout, if any.
        status: Option<ExitStatus>,
    },
    /// Cancellation was requested.
    Cancelled {
        /// Status observed before cancellation, if any.
        status: Option<ExitStatus>,
    },
    /// Waiting for the process failed.
    WaitFailed(IoFailure),
    /// The clock or timer failed.
    TimeFailed {
        /// Clock or timer error.
        source: TimeFailure,
        /// Status observed before the failure, if any.
        status: Option<ExitStatus>,
    },
}

/// The stop reason an event becomes, or the exit status of a normal exit.
pub open spec fn event_outcome(event: RunEvent) -> Result<ExitStatus, StopReason> {
    match event {
        RunEvent::Exited(status) => Ok(status),
        RunEvent::TimedOut { timeout, status } => Err(StopReason::TimedOut { timeout, status }),
        RunEvent::Cancelled { status } => Err(StopReason::Cancelled { status }),
        RunEvent::WaitFailed(source) => Err(StopReason::WaitFailed(source)),
        RunEvent::TimeFailed { source, status } => Err(StopReason::TimeFailed { source, status }),
    }
}

impl RunEvent {
    /// Returns the exit status of a normal exit, or the reason the run
    /// stopped.
    pub fn into_exit_status(self) -> (outcome: Result<ExitStatus, StopReason>)
        ensures
            outcome == event_outcome(self),
    {
        match self {
            RunEvent::Exited(status) => Ok(status),
            RunEvent::TimedOut { timeout, status } => Err(StopReason::TimedOut { timeout, status }),
            RunEvent::Cancelled { status } => Err(StopReason::Cancelled { status }),
            RunEvent::WaitFailed(source) => Err(StopReason::WaitFailed(source)),
            RunEvent::TimeFailed { source, status } => Err(StopReason::TimeFailed { source, status }),
        }
    }
}

/// The status observed before the run stopped, if any.
pub open spec fn stop_observed_status(reason: StopReason) -> Option<ExitStatus> {
    match reason {
        StopReason::TimedOut { status, .. } => status,
        StopReason::Cancelled { status } => status,
        StopReason::TimeFailed { status, .. } => status,
        StopReason::WaitFailed(_) => None,
    }
}

/// Whether the error of a stopped run retains the output collected after
/// termination: always after a timeout or cancellation, never after a wait
/// failure, and after a clock failure only when the exit status was known.
pub open spec fn stop_retains_output(reason: StopReason) -> bool {
    match reason {
        StopReason::TimedOut { .. } => true,
        StopReason::Cancelled { .. } => true,
        StopReason::WaitFailed(_) => false,
        StopReason::TimeFailed { status, .. } => status.is_some(),
    }
}

/// The primary reason of the error a stopped run returns.
pub open spec fn stop_primary_reason(reason: StopReason) -> CommandErrorReason {
    match reason {
        StopReason::TimedOut { timeout, .. } => CommandErrorReason::TimedOut { timeout },
        StopReason::Cancelled { .. } => CommandErrorReason::Cancelled,
        StopReason::WaitFailed(source) => CommandErrorReason::WaitFailed { source },
        StopReason::TimeFailed { source, .. } => CommandErrorReason::TimeFailed { source },
    }
}

impl StopReason {
    /// Returns the status observed before the run stopped, if any.
    pub fn observed_status(&self) -> (status: Option<ExitStatus>)
        ensures
            status == stop_observed_status(*self),
    {
        match self {
            StopReason::TimedOut { status, .. } => *status,
            StopReason::Cancelled { status } => *status,
            StopReason::TimeFailed { status, .. } => *status,
            StopReason::WaitFailed(_) => None,
        }
    }

    /// Whether the error of the stopped run retains output collected after
    /// termination.
    pub fn retains_termination_output(&self) -> (retains: bool)
        ensures
            retains == stop_retains_output(*self),
    {
        match self {
            StopReason::TimedOut { .. } => true,
            StopReason::Cancelled { .. } => true,
            StopReason::WaitFailed(_) => false,
            StopReason::TimeFailed { status, .. } => status.is_some(),
        }
    }

    /// Converts the reason into the run's primary error.
    pub fn into_primary_error(self, command: &str, output: Option<Box<CommandOutput>>) -> (error: CommandError)
        ensures
            error.spec_command() == command@,
            error.spec_reason() == stop_primary_reason(self),
            error.spec_output() == (match output {
                Some(output) => Some(*output),
                None => None::<CommandOutput>,
            }),
            error.spec_cleanup_failures() == Seq::<CommandCleanupFailure>::empty(),
    {
        let reason = match self {
            StopReason::TimedOut { timeout, .. } => CommandErrorReason::TimedOut { timeout },
            StopReason::Cancelled { .. } => CommandErrorReason::Cancelled,
            StopReason::WaitFailed(source) => CommandErrorReason::WaitFailed { source },
            StopReason::TimeFailed { source, .. } => CommandErrorReason::TimeFailed { source },
        };
        CommandError::from_reason(command, reason, output)
    }

    /// Converts the reason into the primary error when collecting output
    /// after termination failed: the collection error contributes its output
    /// and its failures as cleanup failures.
    pub fn into_error_after_finalize(self, command: &str, error: CommandError) -> (merged: CommandError)
        ensures
            merged.spec_command() == command@,
            merged.spec_reason() == stop_primary_reason(self),
            merged.spec_output() == error.spec_output(),
            merged.spec_cleanup_failures() == canonical_order(
                helper_cleanup_prefix(error.spec_reason()) + error.spec_cleanup_failures(),
            ),
    {
        let primary = self.into_primary_error(command, None);
        let merged = primary.with_finalization_error(error);
        proof {
            assert(Seq::<CommandCleanupFailure>::empty() + helper_cleanup_prefix(error.spec_reason())
                + error.spec_cleanup_failures() =~= helper_cleanup_prefix(error.spec_reason())
                + error.spec_cleanup_failures());
        }
        merged
    }
}

impl ProcessTerminationError {
    /// Converts a failed termination into the run's error: the stop reason
    /// stays primary and the termination failures are kept.
    pub fn into_command_error(self, reason: StopReason, command: &str) -> (error: CommandError)
        ensures
            error.spec_command() == command@,
            error.spec_reason() == stop_primary_reason(reason),
            error.spec_output().is_none(),
            error.spec_cleanup_failures() == canonical_order(self.cleanup_failures@),
    {
        let failures = self.into_cleanup_failures();
        let ghost listed = failures@;
        let error = reason.into_primary_error(command, None).with_cleanup_failures(failures);
        proof {
            assert(Seq::<CommandCleanupFailure>::empty() + listed =~= listed);
        }
        error
    }
}

/// Whether, after terminating a stopped run, the helpers' output should be
/// collected (as opposed to the helpers only being stopped).
pub open spec fn collects_after_stop(
    reason: StopReason,
    termination: Result<ProcessTerminationOutcome, ProcessTerminationError>,
) -> bool {
    termination.is_ok() && stop_retains_output(reason)
}

/// Whether, after terminating a stopped run, the helpers' output should be
/// collected: only when termination produced a status and the stop reason
/// retains output.
pub fn should_collect_after_stop(
    reason: &StopReason,
    termination: &Result<ProcessTerminationOutcome, ProcessTerminationError>,
) -> (collect: bool)
    ensures
        collect == collects_after_stop(*reason, *termination),
{
    termination.is_ok() && reason.retains_termination_output()
}

/// The final status of a stopped run: the observed one when known,
/// otherwise the one termination produced.
pub fn status_after_stop(reason: &StopReason, outcome: &ProcessTerminationOutcome) -> (status: ExitStatus)
    ensures
        status == match stop_observed_status(*reason) {
            Some(observed) => observed,
            None => outcome.status,
        },
{
    match reason.observed_status() {
        Some(observed) => observed,
        None => outcome.status,
    }
}

/// Assembles the error of a stopped run.
///
/// The stop reason is always primary. A failed termination contributes its
/// failures; a successful one contributes its failures and, when output was
/// collected, either that output or the collection error (its output and
/// failures). The helper cleanup failures are added last; the result holds
/// every failure in canonical order.
pub fn finalize_stop(
    command: &str,
    reason: StopReason,
    termination: Result<ProcessTerminationOutcome, ProcessTerminationError>,
    collected: Option<Result<CommandOutput, CommandError>>,
    helper_failures: Vec<CommandCleanupFailure>,
) -> (error: CommandError)
    requires
        collected.is_some() == collects_after_stop(reason, termination),
    ensures
        error.spec_command() == command@,
        canonical_order(error.spec_cleanup_failures()) == error.spec_cleanup_failures(),
        error.spec_reason() == stop_primary_reason(reason),
        match termination {
            Err(failure) => {
                &&& error.spec_output().is_none()
                &&& error.spec_cleanup_failures() == canonical_order(
                    canonical_order(failure.cleanup_failures@) + helper_failures@,
                )
            },
            Ok(outcome) => match collected {
                None => {
                    &&& error.spec_output().is_none()
                    &&& error.spec_cleanup_failures() == canonical_order(
                        canonical_order(outcome.cleanup_failures@) + helper_failures@,
                    )
                },
                Some(Ok(output)) => {
                    &&& error.spec_output() == Some(output)
                    &&& error.spec_cleanup_failures() == canonical_order(
                        canonical_order(outcome.cleanup_failures@) + helper_failures@,
                    )
                },
                Some(Err(collect_error)) => {
                    &&& error.spec_output() == collect_error.spec_output()
                    &&& error.spec_cleanup_failures() == canonical_order(
                        canonical_order(
                            canonical_order(
                                helper_cleanup_prefix(collect_error.spec_reason())
                                    + collect_error.spec_cleanup_failures(),
                            ) + outcome.cleanup_failures@,
                        ) + helper_failures@,
                    )
                },
            },
        },
{
    match termination {
        Err(failure) => {
            let error = failure.into_command_error(reason, command);
            error.with_cleanup_failures(helper_failures)
        },
        Ok(outcome) => {
            let ProcessTerminationOutcome { status: _, cleanup_failures } = outcome;
            match collected {
                None => {
                    let ghost listed = cleanup_failures@;
                    let error = reason.into_primary_error(command, None).with_cleanup_failures(
                        cleanup_failures,
                    );
                    proof {
                        assert(Seq::<CommandCleanupFailure>::empty() + listed =~= listed);
                    }
                    error.with_cleanup_failures(helper_failures)
                },
                Some(Ok(output)) => {
                    let ghost listed = cleanup_failures@;
                    let error = reason.into_primary_error(command, Some(Box::new(output)))
                        .with_cleanup_failures(cleanup_failures);
                    proof {
                        assert(Seq::<CommandCleanupFailure>::empty() + listed =~= listed);
                    }
                    error.with_cleanup_failures(helper_failures)
                },
                Some(Err(collect_error)) => {
                    let error = reason.into_error_after_finalize(command, collect_error);
                    error.with_cleanup_failures(cleanup_failures).with_cleanup_failures(helper_failures)
                },
            }
        },
    }
}

/// Sleep intervals between polls while waiting with a timeout, in
/// milliseconds; the last one repeats.
pub open spec fn poll_interval_millis(poll_count: int) -> int {
    if poll_count <= 0 {
        1
    } else if poll_count == 1 {
        2
    } else if poll_count == 2 {
        4
    } else if poll_count == 3 {
        8
    } else {
        10
    }
}

/// Sleep interval between polls while waiting for cancellation only.
pub const CANCELLATION_POLL_INTERVAL_MILLIS: u64 = 10;

/// The time to sleep before the next poll: the poll interval for this poll
/// count, but never past the timeout.
pub fn next_sleep(timeout: TimeSpan, elapsed: TimeSpan, poll_count: usize) -> (sleep: TimeSpan)
    ensures
        sleep.view_nanos() == if timeout.view_nanos() - elapsed.view_nanos() < poll_interval_millis(
            poll_count as int,
        ) * 1_000_000 {
            if timeout.view_nanos() >= elapsed.view_nanos() {
                timeout.view_nanos() - elapsed.view_nanos()
            } else {
                0
            }
        } else {
            poll_interval_millis(poll_count as int) * 1_000_000
        },
{
    let interval_millis: u64 = if poll_count == 0 {
        1
    } else if poll_count == 1 {
        2
    } else if poll_count == 2 {
        4
    } else if poll_count == 3 {
        8
    } else {
        10
    };
    let remaining = timeout.saturating_sub(elapsed);
    remaining.min(TimeSpan::from_millis(interval_millis))
}

/// What the waiting loop does next.
#[derive(Debug)]
pub enum WaitStep {
    /// Stop waiting with this event.
    Finish(RunEvent),
    /// Sleep this long, then poll again.
    Sleep(TimeSpan),
}

/// Decides the next step of a wait that found the process (or its helpers)
/// still running.
///
/// `status` is the exit status already known, if any. Cancellation is
/// checked first; then, with a timeout, the elapsed time (which the caller
/// measures only when a timeout is configured) decides between a clock
/// failure, a timeout, or a sleep bounded by [`next_sleep`]; without a
/// timeout the loop sleeps for the cancellation poll interval.
pub fn decide_wait_step(
    status: Option<ExitStatus>,
    cancelled: bool,
    timeout: Option<TimeSpan>,
    elapsed: Option<Result<TimeSpan, TimeFailure>>,
    poll_count: usize,
) -> (step: WaitStep)
    requires
        timeout.is_some() == elapsed.is_some(),
    ensures
        cancelled ==> step == WaitStep::Finish(RunEvent::Cancelled { status }),
        !cancelled ==> match timeout {
            None => step is Sleep && step->Sleep_0.view_nanos() == CANCELLATION_POLL_INTERVAL_MILLIS * 1_000_000,
            Some(limit) => match elapsed.unwrap() {
                Err(source) => step == WaitStep::Finish(RunEvent::TimeFailed { source, status }),
                Ok(spent) => if spent.view_nanos() >= limit.view_nanos() {
                    step == WaitStep::Finish(RunEvent::TimedOut { timeout: limit, status })
                } else {
                    step is Sleep && step->Sleep_0.view_nanos() == if limit.view_nanos() - spent.view_nanos()
                        < poll_interval_millis(poll_count as int) * 1_000_000 {
                        limit.view_nanos() - spent.view_nanos()
                    } else {
                        poll_interval_millis(poll_count as int) * 1_000_000
                    }
                },
            },
        },
{
    if cancelled {
        return WaitStep::Finish(RunEvent::Cancelled { status });
    }
    match timeout {
        None => WaitStep::Sleep(TimeSpan::from_millis(CANCELLATION_POLL_INTERVAL_MILLIS)),
        Some(limit) => match elapsed {
            Some(Err(source)) => WaitStep::Finish(RunEvent::TimeFailed { source, status }),
            Some(Ok(spent)) => {
                if spent.is_at_least(&limit) {
                    WaitStep::Finish(RunEvent::TimedOut { timeout: limit, status })
                } else {
                    WaitStep::Sleep(next_sleep(limit, spent, poll_count))
                }
            },
            None => WaitStep::Sleep(TimeSpan::from_millis(CANCELLATION_POLL_INTERVAL_MILLIS)),
        },
    }
}

} // verus!
