//! Stopping a started command: terminating its child, stopping its helpers
//! and assembling the error that reports every failure met on the way.

use vstd::prelude::*;

use crate::capture::CapturedOutput;
use crate::capture::OutputCaptureError;
use crate::command_cleanup_failure::canonical_order;
use crate::command_cleanup_failure::lemma_canonical_order_is_permutation;
use crate::command_cleanup_failure::lemma_canonical_order_keeps_all;
use crate::command_cleanup_failure::lemma_canonical_order_keeps_parts;
use crate::command_error::helper_cleanup_prefix;
use crate::collector::capture_failures;
use crate::collector::collected_as;
use crate::collector::stdin_cleanup_failures;
use crate::collector::stream_cleanup_failure;
use crate::collector::stream_cleanup_failures;
use crate::helpers::cancel_and_join_failures;
use crate::helpers::joined_stdin_failures;
use crate::helpers::joined_stream_failures;
use crate::helpers::stands_for;
use crate::helpers::stdin_or_finished;
use crate::CommandOutput;
use crate::OutputStream;
use crate::helpers::collect_after_cancellation;
use crate::stop::finalize_stop;
use crate::stop::should_collect_after_stop;
use crate::stop::status_after_stop;
use crate::stop::stop_primary_reason;
use crate::stop::stop_retains_output;
use crate::stop::StopReason;
use crate::stop::decide_wait_step;
use crate::stop::RunEvent;
use crate::stop::WaitStep;
use crate::ExitStatus;
use crate::IoFailure;
use crate::terminator::outcome_is;
use crate::terminator::terminate_process;
use crate::terminator::termination_result;
use crate::terminator::terminated_as;
use crate::terminator::TerminationResult;
use crate::terminator::ChildCall;
use crate::terminator::ChildControl;
use crate::terminator::ManagedChildProcess;
use crate::terminator::TerminationResponses;
use crate::CommandCleanupFailure;
use crate::CommandError;
use crate::TimeFailure;
use crate::TimeSpan;

verus! {

/// What the helpers of a command reported after they were asked to stop.
///
/// A helper whose interruption failed and that did not stop in time has not
/// reported back; its entry is `None`.
pub struct StoppedHelpers {
    /// Failures to interrupt the helpers, in helper order: stdout reader,
    /// stderr reader, stdin writer.
    pub cancellation_failures: Vec<CommandCleanupFailure>,
    /// What the stdout reader reported.
    pub stdout: Option<Result<CapturedOutput, OutputCaptureError>>,
    /// What the stderr reader reported.
    pub stderr: Option<Result<CapturedOutput, OutputCaptureError>>,
    /// What the stdin writer reported, already mapped to the run's stdin
    /// result.
    pub stdin: Option<Result<(), CommandError>>,
}

/// The helpers that run beside a child: the output readers and the
/// optional stdin writer, with the clock that measures the run.
///
/// Implementations report what the operating system reports; nothing is
/// assumed about the values they return.
pub trait RunHelpers {
    /// Asks every started helper to stop and returns what they reported.
    fn cancel_and_join(&mut self) -> StoppedHelpers;

    /// Time elapsed since the child was spawned.
    fn elapsed(&mut self) -> Result<TimeSpan, TimeFailure>;
}

/// One call made to a command's helpers, with its answer.
pub enum HelperCall {
    /// `cancel_and_join` and what the helpers reported.
    CancelAndJoin(StoppedHelpers),
    /// `elapsed` and its answer.
    Elapsed(Result<TimeSpan, TimeFailure>),
}

/// A command's helpers together with the record of every call made to
/// them, with the answers.
pub struct RecordedHelpers<H> {
    /// The helpers.
    pub helpers: H,
    /// The calls made so far, in order.
    pub calls: Ghost<Seq<HelperCall>>,
}

impl<H> RecordedHelpers<H> {
    /// Wraps helpers with an empty record.
    pub fn new(helpers: H) -> (recorded: Self)
        ensures
            recorded.helpers == helpers,
            recorded.calls() == Seq::<HelperCall>::empty(),
    {
        RecordedHelpers { helpers, calls: Ghost(Seq::empty()) }
    }

    /// The calls made so far, in order.
    pub open spec fn calls(&self) -> Seq<HelperCall> {
        self.calls@
    }
}

impl<H: RunHelpers> RecordedHelpers<H> {
    /// `cancel_and_join`, recorded.
    pub fn cancel_and_join(&mut self) -> (stopped: StoppedHelpers)
        ensures
            final(self).calls() == old(self).calls().push(HelperCall::CancelAndJoin(stopped)),
    {
        let stopped = self.helpers.cancel_and_join();
        self.calls = Ghost(self.calls@.push(HelperCall::CancelAndJoin(stopped)));
        stopped
    }

    /// `elapsed`, recorded.
    pub fn elapsed(&mut self) -> (elapsed: Result<TimeSpan, TimeFailure>)
        ensures
            final(self).calls() == old(self).calls().push(HelperCall::Elapsed(elapsed)),
    {
        let elapsed = self.helpers.elapsed();
        self.calls = Ghost(self.calls@.push(HelperCall::Elapsed(elapsed)));
        elapsed
    }
}

/// Every failure the stopped helpers reported: the failures to interrupt
/// them, then what the helpers that reported back recorded (stdout, stderr,
/// stdin).
pub open spec fn stopped_failures(stopped: StoppedHelpers) -> Seq<CommandCleanupFailure> {
    stopped.cancellation_failures@ + joined_stream_failures(OutputStream::Stdout, stopped.stdout)
        + joined_stream_failures(OutputStream::Stderr, stopped.stderr) + joined_stdin_failures(stopped.stdin)
}

/// The helpers were asked to stop once, right after the calls `before`, and
/// reported `stopped`.
pub open spec fn helpers_stopped(before: Seq<HelperCall>, after: Seq<HelperCall>, stopped: StoppedHelpers) -> bool {
    &&& after.len() > before.len()
    &&& after.subrange(0, before.len() as int + 1) == before.push(HelperCall::CancelAndJoin(stopped))
}

/// The answer of the `elapsed` call at `at`, if that call is one.
pub open spec fn elapsed_answer(calls: Seq<HelperCall>, at: int) -> Result<TimeSpan, TimeFailure> {
    match calls[at] {
        HelperCall::Elapsed(elapsed) => elapsed,
        _ => vstd::pervasive::arbitrary(),
    }
}

/// The cleanup failures of a stopped run, in canonical order: those of
/// termination, then those of collecting the output (when it was collected:
/// the collection error's primary helper failure and its cleanup failures)
/// and the helpers' failures to stop, or, without collection, every failure
/// the helpers reported.
pub open spec fn stop_cleanup(
    terminated: TerminationResult,
    collected: Option<Result<CommandOutput, CommandError>>,
    stopped: StoppedHelpers,
) -> Seq<CommandCleanupFailure> {
    let failures = termination_failures(terminated);
    match collected {
        None => canonical_order(canonical_order(failures) + stopped_failures(stopped)),
        Some(Ok(_)) => canonical_order(canonical_order(failures) + stopped.cancellation_failures@),
        Some(Err(collect_error)) => canonical_order(
            canonical_order(
                canonical_order(
                    helper_cleanup_prefix(collect_error.spec_reason()) + collect_error.spec_cleanup_failures(),
                ) + failures,
            ) + stopped.cancellation_failures@,
        ),
    }
}

/// The output a collection result carries.
pub open spec fn output_of(collected: Result<CommandOutput, CommandError>) -> Option<CommandOutput> {
    match collected {
        Ok(output) => Some(output),
        Err(error) => error.spec_output(),
    }
}

/// `collected` is what collecting the stopped helpers' reports gives, with
/// the final status and the elapsed time.
pub open spec fn collected_from(
    collected: Result<CommandOutput, CommandError>,
    command: Seq<char>,
    status: ExitStatus,
    elapsed: Result<TimeSpan, TimeFailure>,
    stopped: StoppedHelpers,
) -> bool {
    exists|stdout: Result<CapturedOutput, OutputCaptureError>, stderr: Result<CapturedOutput, OutputCaptureError>|
        {
            &&& stands_for(stopped.stdout, stdout)
            &&& stands_for(stopped.stderr, stderr)
            &&& #[trigger] collected_as(
                collected,
                command,
                status,
                elapsed,
                stdout,
                stderr,
                stdin_or_finished(stopped.stdin),
            )
        }
}

/// The final status of a stop: the observed one, or termination's.
pub open spec fn stop_status(reason: StopReason, terminated: ExitStatus) -> ExitStatus {
    match crate::stop::stop_observed_status(reason) {
        Some(observed) => observed,
        None => terminated,
    }
}

/// The failures a collection result carries besides its output: its primary
/// reason when that is a helper failure, then its cleanup failures.
pub open spec fn collection_failures(collected: Result<CommandOutput, CommandError>) -> Seq<CommandCleanupFailure> {
    match collected {
        Ok(_) => Seq::empty(),
        Err(error) => helper_cleanup_prefix(error.spec_reason()) + error.spec_cleanup_failures(),
    }
}

/// Stream failures mapped to cleanup failures: the first, then the rest.
proof fn lemma_stream_failures_split(stream: OutputStream, failures: Seq<crate::capture::OutputCaptureFailure>)
    requires
        failures.len() > 0,
    ensures
        stream_cleanup_failures(stream, failures) == seq![stream_cleanup_failure(stream, failures[0])]
            + stream_cleanup_failures(stream, failures.drop_first()),
{
    assert(stream_cleanup_failures(stream, failures) =~= seq![stream_cleanup_failure(stream, failures[0])]
        + stream_cleanup_failures(stream, failures.drop_first()));
}

/// Collecting the helpers' reports keeps every failure they recorded: a
/// successful collection means they recorded none.
proof fn lemma_collection_keeps_helper_failures(
    collected: Result<CommandOutput, CommandError>,
    command: Seq<char>,
    status: ExitStatus,
    elapsed: Result<TimeSpan, TimeFailure>,
    stopped: StoppedHelpers,
)
    requires
        collected_from(collected, command, status, elapsed, stopped),
    ensures
        kept_in(
            joined_stream_failures(OutputStream::Stdout, stopped.stdout) + joined_stream_failures(
                OutputStream::Stderr,
                stopped.stderr,
            ) + joined_stdin_failures(stopped.stdin),
            collection_failures(collected),
        ),
{
    broadcast use vstd::multiset::group_multiset_axioms;

    let (stdout, stderr) = choose|
        stdout: Result<CapturedOutput, OutputCaptureError>,
        stderr: Result<CapturedOutput, OutputCaptureError>,
    |
        {
            &&& stands_for(stopped.stdout, stdout)
            &&& stands_for(stopped.stderr, stderr)
            &&& #[trigger] collected_as(
                collected,
                command,
                status,
                elapsed,
                stdout,
                stderr,
                stdin_or_finished(stopped.stdin),
            )
        };
    let s_out = stream_cleanup_failures(OutputStream::Stdout, capture_failures(stdout));
    let s_err = stream_cleanup_failures(OutputStream::Stderr, capture_failures(stderr));
    let s_in = stdin_cleanup_failures(stdin_or_finished(stopped.stdin));
    assert(joined_stream_failures(OutputStream::Stdout, stopped.stdout) =~= s_out);
    assert(joined_stream_failures(OutputStream::Stderr, stopped.stderr) =~= s_err);
    assert(joined_stdin_failures(stopped.stdin) =~= s_in);
    let joined = s_out + s_err + s_in;
    let kept = collection_failures(collected);
    vstd::seq_lib::lemma_multiset_commutative(s_out, s_err);
    vstd::seq_lib::lemma_multiset_commutative(s_out + s_err, s_in);
    match collected {
        Ok(_) => {
            assert(s_out =~= Seq::<CommandCleanupFailure>::empty());
            assert(s_err =~= Seq::<CommandCleanupFailure>::empty());
            assert(joined =~= Seq::<CommandCleanupFailure>::empty());
            assert forall|v: CommandCleanupFailure| joined.to_multiset().count(v) <= kept.to_multiset().count(v) by {}
        },
        Err(error) => {
            let prefix = helper_cleanup_prefix(error.spec_reason());
            vstd::seq_lib::lemma_multiset_commutative(prefix, error.spec_cleanup_failures());
            match elapsed {
                Err(_) => {
                    lemma_canonical_order_is_permutation(joined);
                },
                Ok(_) => {
                    let out_f = capture_failures(stdout);
                    let err_f = capture_failures(stderr);
                    if out_f.len() > 0 {
                        lemma_stream_failures_split(OutputStream::Stdout, out_f);
                        let rest = stream_cleanup_failures(OutputStream::Stdout, out_f.drop_first()) + s_err + s_in;
                        lemma_canonical_order_is_permutation(rest);
                        assert(prefix =~= seq![stream_cleanup_failure(OutputStream::Stdout, out_f[0])]);
                        assert(joined =~= prefix + rest);
                        vstd::seq_lib::lemma_multiset_commutative(prefix, rest);
                    } else if err_f.len() > 0 {
                        lemma_stream_failures_split(OutputStream::Stderr, err_f);
                        let rest = stream_cleanup_failures(OutputStream::Stderr, err_f.drop_first()) + s_in;
                        lemma_canonical_order_is_permutation(rest);
                        assert(s_out =~= Seq::<CommandCleanupFailure>::empty());
                        assert(prefix =~= seq![stream_cleanup_failure(OutputStream::Stderr, err_f[0])]);
                        assert(joined =~= prefix + rest);
                        vstd::seq_lib::lemma_multiset_commutative(prefix, rest);
                    } else {
                        assert(s_out =~= Seq::<CommandCleanupFailure>::empty());
                        assert(s_err =~= Seq::<CommandCleanupFailure>::empty());
                        assert(joined =~= s_in);
                    }
                },
            }
            assert forall|v: CommandCleanupFailure| joined.to_multiset().count(v) <= kept.to_multiset().count(
                v,
            ) by {}
        },
    }
}

/// What is kept in `x` is kept in `x` merged with `later`, and what is
/// merged in is kept with it.
proof fn lemma_kept_with_later(
    part: Seq<CommandCleanupFailure>,
    x: Seq<CommandCleanupFailure>,
    later: Seq<CommandCleanupFailure>,
)
    requires
        kept_in(part, x),
    ensures
        kept_in(later + part, canonical_order(x + later)),
{
    broadcast use vstd::multiset::group_multiset_axioms;

    crate::command_cleanup_failure::lemma_cleanup_failures_all_kept(x, later);
    vstd::seq_lib::lemma_multiset_commutative(later, part);
    assert forall|v: CommandCleanupFailure| (later + part).to_multiset().count(v) <= canonical_order(
        x + later,
    ).to_multiset().count(v) by {
        assert(part.to_multiset().count(v) <= x.to_multiset().count(v));
    }
}

/// What is kept in `x` is kept in `x` sorted and merged after `earlier`.
proof fn lemma_kept_after_earlier(
    part: Seq<CommandCleanupFailure>,
    x: Seq<CommandCleanupFailure>,
    earlier: Seq<CommandCleanupFailure>,
)
    requires
        kept_in(part, x),
    ensures
        kept_in(part, canonical_order(canonical_order(x) + earlier)),
{
    lemma_canonical_order_keeps_all(x);
    lemma_kept_in_trans(part, x, canonical_order(x));
    lemma_canonical_order_keeps_parts(canonical_order(x), earlier);
    lemma_kept_in_trans(part, canonical_order(x), canonical_order(canonical_order(x) + earlier));
}

/// The cleanup failures are in canonical resource order.
pub open spec fn is_canonical(failures: Seq<CommandCleanupFailure>) -> bool {
    canonical_order(failures) == failures
}

/// The failures met while terminating, whether or not a final status was
/// obtained.
pub open spec fn termination_failures(result: TerminationResult) -> Seq<CommandCleanupFailure> {
    match result {
        Ok((_, failures)) => failures,
        Err(failures) => failures,
    }
}

/// Every failure of `part` is among `all`.
pub open spec fn kept_in(part: Seq<CommandCleanupFailure>, all: Seq<CommandCleanupFailure>) -> bool {
    part.to_multiset().subset_of(all.to_multiset())
}

proof fn lemma_kept_in_trans(
    a: Seq<CommandCleanupFailure>,
    b: Seq<CommandCleanupFailure>,
    c: Seq<CommandCleanupFailure>,
)
    requires
        kept_in(a, b),
        kept_in(b, c),
    ensures
        kept_in(a, c),
{
    assert forall|v: CommandCleanupFailure| a.to_multiset().count(v) <= c.to_multiset().count(v) by {
        assert(a.to_multiset().count(v) <= b.to_multiset().count(v));
        assert(b.to_multiset().count(v) <= c.to_multiset().count(v));
    }
}

/// Failures sorted into canonical order and then merged with `later` are all
/// kept.
proof fn lemma_kept_after_merge(failures: Seq<CommandCleanupFailure>, later: Seq<CommandCleanupFailure>)
    ensures
        kept_in(failures, canonical_order(canonical_order(failures) + later)),
{
    lemma_canonical_order_keeps_all(failures);
    lemma_canonical_order_keeps_parts(canonical_order(failures), later);
    lemma_kept_in_trans(failures, canonical_order(failures), canonical_order(canonical_order(failures) + later));
}

/// Failures merged after `earlier`, then merged with `later`, are all kept.
proof fn lemma_kept_after_two_merges(
    earlier: Seq<CommandCleanupFailure>,
    failures: Seq<CommandCleanupFailure>,
    later: Seq<CommandCleanupFailure>,
)
    ensures
        kept_in(failures, canonical_order(canonical_order(canonical_order(earlier) + failures) + later)),
{
    lemma_canonical_order_keeps_parts(canonical_order(earlier), failures);
    let mid = canonical_order(canonical_order(earlier) + failures);
    lemma_canonical_order_keeps_parts(mid, later);
    lemma_kept_in_trans(failures, mid, canonical_order(mid + later));
}

/// Stops a command whose monitoring ended with `reason`.
///
/// The child (or its process tree) is terminated first, by the termination
/// protocol, then every helper is asked to stop. When termination produced
/// a status and the reason keeps output, the output the helpers captured is
/// collected with the elapsed time; otherwise only their failures are kept.
/// The returned error always carries `reason` as its primary reason and
/// every failure met, in canonical order: those of termination and every
/// failure the helpers reported. Its output is the collected one whenever
/// termination produced a status and the reason keeps output.
pub fn stop_and_finalize<C: ChildControl, H: RunHelpers>(
    command: &str,
    child: &mut ManagedChildProcess<C>,
    helpers: &mut RecordedHelpers<H>,
    reason: StopReason,
) -> (error: CommandError)
    ensures
        error.spec_command() == command@,
        error.spec_reason() == stop_primary_reason(reason),
        !stop_retains_output(reason) ==> error.spec_output().is_none(),
        is_canonical(error.spec_cleanup_failures()),
        final(child).process_tree_managed == old(child).process_tree_managed,
        exists|responses: TerminationResponses, stopped: StoppedHelpers|
            #![trigger termination_result(old(child).process_tree_managed, crate::stop::stop_observed_status(reason), responses), helpers_stopped(old(helpers).calls(), final(helpers).calls(), stopped)]
            {
                let terminated = termination_result(
                    old(child).process_tree_managed,
                    crate::stop::stop_observed_status(reason),
                    responses,
                );
                &&& terminated_as(
                    old(child).calls(),
                    final(child).calls(),
                    old(child).process_tree_managed,
                    crate::stop::stop_observed_status(reason),
                    responses,
                )
                &&& terminated is Err ==> error.spec_output().is_none()
                &&& kept_in(termination_failures(terminated), error.spec_cleanup_failures())
                &&& helpers_stopped(old(helpers).calls(), final(helpers).calls(), stopped)
                &&& kept_in(stopped_failures(stopped), error.spec_cleanup_failures())
                &&& match terminated {
                    Ok((status, _)) => if stop_retains_output(reason) {
                        &&& final(helpers).calls().len() == old(helpers).calls().len() + 2
                        &&& final(helpers).calls()[old(helpers).calls().len() as int + 1] is Elapsed
                        &&& exists|collected: Result<CommandOutput, CommandError>|
                            #[trigger] collected_from(
                                collected,
                                command@,
                                stop_status(reason, status),
                                elapsed_answer(final(helpers).calls(), old(helpers).calls().len() as int + 1),
                                stopped,
                            ) && error.spec_output() == output_of(collected) && error.spec_cleanup_failures()
                                == stop_cleanup(terminated, Some(collected), stopped)
                    } else {
                        error.spec_cleanup_failures() == stop_cleanup(terminated, None, stopped)
                    },
                    Err(_) => error.spec_cleanup_failures() == stop_cleanup(terminated, None, stopped),
                }
            },
{
    let ghost managed = child.process_tree_managed;
    let ghost before = child.calls();
    let ghost hbefore = helpers.calls();
    let observed = reason.observed_status();
    let termination = terminate_process(child, observed);
    let ghost term = termination;
    let ghost after = child.calls();
    let collect = should_collect_after_stop(&reason, &termination);
    let stopped = helpers.cancel_and_join();
    let ghost stopped_g = stopped;
    let ghost hstopped = helpers.calls();
    let StoppedHelpers { cancellation_failures, stdout, stderr, stdin } = stopped;
    let ghost term_failures: Seq<CommandCleanupFailure> = match term {
        Ok(outcome) => outcome.cleanup_failures@,
        Err(failure) => failure.cleanup_failures@,
    };
    let ghost joined = joined_stream_failures(OutputStream::Stdout, stopped_g.stdout) + joined_stream_failures(
        OutputStream::Stderr,
        stopped_g.stderr,
    ) + joined_stdin_failures(stopped_g.stdin);
    proof {
        assert(stopped_failures(stopped_g) =~= stopped_g.cancellation_failures@ + joined);
        assert(hstopped.subrange(0, hbefore.len() as int + 1) =~= hbefore.push(HelperCall::CancelAndJoin(stopped_g)));
    }
    let ghost mut collected_g: Result<CommandOutput, CommandError> = vstd::pervasive::arbitrary();
    let ghost mut status_g: ExitStatus = vstd::pervasive::arbitrary();
    let error = if collect {
        let status = match &termination {
            Ok(outcome) => status_after_stop(&reason, outcome),
            Err(_) => crate::ExitStatus::unknown(),
        };
        let elapsed = helpers.elapsed();
        let collected = collect_after_cancellation(command, status, elapsed, stdout, stderr, stdin);
        let ghost collected_value = collected;
        let ghost later = cancellation_failures@;
        proof {
            collected_g = collected;
            status_g = status;
            assert(collected_from(collected, command@, status, elapsed, stopped_g));
            lemma_collection_keeps_helper_failures(collected, command@, status, elapsed, stopped_g);
            assert(helpers.calls()[hbefore.len() as int + 1] == HelperCall::Elapsed(elapsed));
            assert(elapsed_answer(helpers.calls(), hbefore.len() as int + 1) == elapsed);
            assert(helpers.calls().subrange(0, hbefore.len() as int + 1) =~= hstopped.subrange(
                0,
                hbefore.len() as int + 1,
            ));
        }
        let error = finalize_stop(command, reason, termination, Some(collected), cancellation_failures);
        proof {
            match term {
                Ok(_) => match collected_value {
                    Ok(_) => {
                        lemma_kept_after_merge(term_failures, later);
                        assert forall|v: CommandCleanupFailure|
                            Seq::<CommandCleanupFailure>::empty().to_multiset().count(v) <= canonical_order(
                                term_failures,
                            ).to_multiset().count(v) by {
                            broadcast use vstd::multiset::group_multiset_axioms, vstd::seq_lib::group_to_multiset_ensures;

                            assert(Seq::<CommandCleanupFailure>::empty().to_multiset() =~= vstd::multiset::Multiset::<
                                CommandCleanupFailure,
                            >::empty());
                        }
                        lemma_kept_in_trans(
                            joined,
                            Seq::<CommandCleanupFailure>::empty(),
                            canonical_order(term_failures),
                        );
                        lemma_kept_with_later(joined, canonical_order(term_failures), later);
                    },
                    Err(collect_error) => {
                        let prefix = helper_cleanup_prefix(collect_error.spec_reason())
                            + collect_error.spec_cleanup_failures();
                        lemma_kept_after_two_merges(prefix, term_failures, later);
                        lemma_kept_after_earlier(joined, prefix, term_failures);
                        lemma_kept_with_later(
                            joined,
                            canonical_order(canonical_order(prefix) + term_failures),
                            later,
                        );
                    },
                },
                Err(_) => lemma_kept_after_merge(term_failures, later),
            }
        }
        error
    } else {
        let failures = cancel_and_join_failures(cancellation_failures, stdout, stderr, stdin);
        let ghost later = failures@;
        let error = finalize_stop(command, reason, termination, None, failures);
        proof {
            lemma_kept_after_merge(term_failures, later);
            lemma_canonical_order_keeps_parts(canonical_order(term_failures), later);
            assert(later =~= stopped_failures(stopped_g));
        }
        error
    };
    proof {
        let responses = choose|responses: TerminationResponses|
            {
                &&& terminated_as(before, after, managed, observed, responses)
                &&& #[trigger] outcome_is(term, termination_result(managed, observed, responses))
            };
        assert(terminated_as(before, after, managed, observed, responses));
        assert(termination_result(managed, observed, responses) is Err ==> term is Err);
        assert(termination_failures(termination_result(managed, observed, responses)) == term_failures);
        assert(helpers_stopped(hbefore, helpers.calls(), stopped_g));
        match termination_result(managed, observed, responses) {
            Ok((status, _)) => {
                if stop_retains_output(reason) {
                    assert(status_g == stop_status(reason, status));
                    assert(collected_from(
                        collected_g,
                        command@,
                        stop_status(reason, status),
                        elapsed_answer(helpers.calls(), hbefore.len() as int + 1),
                        stopped_g,
                    ));
                    assert(error.spec_cleanup_failures() == stop_cleanup(
                        termination_result(managed, observed, responses),
                        Some(collected_g),
                        stopped_g,
                    ));
                } else {
                    assert(error.spec_cleanup_failures() == stop_cleanup(
                        termination_result(managed, observed, responses),
                        None,
                        stopped_g,
                    ));
                }
            },
            Err(_) => {
                assert(error.spec_cleanup_failures() == stop_cleanup(
                    termination_result(managed, observed, responses),
                    None,
                    stopped_g,
                ));
            },
        }
    }
    error
}

/// Cleans up after a start that failed once the child was spawned: the
/// child is terminated by the termination protocol, the started helpers are
/// stopped, and every failure met is added to `primary`, which stays the
/// reported error.
pub fn abort_startup<C: ChildControl, H: RunHelpers>(
    child: &mut ManagedChildProcess<C>,
    helpers: &mut RecordedHelpers<H>,
    primary: CommandError,
) -> (error: CommandError)
    ensures
        error.spec_command() == primary.spec_command(),
        error.spec_reason() == primary.spec_reason(),
        error.spec_output() == primary.spec_output(),
        is_canonical(error.spec_cleanup_failures()),
        kept_in(primary.spec_cleanup_failures(), error.spec_cleanup_failures()),
        final(child).process_tree_managed == old(child).process_tree_managed,
        exists|responses: TerminationResponses|
            {
                &&& terminated_as(
                    old(child).calls(),
                    final(child).calls(),
                    old(child).process_tree_managed,
                    None,
                    responses,
                )
                &&& kept_in(
                    termination_failures(
                        #[trigger] termination_result(old(child).process_tree_managed, None, responses),
                    ),
                    error.spec_cleanup_failures(),
                )
            },
        exists|stopped: StoppedHelpers|
            #[trigger] helpers_stopped(old(helpers).calls(), final(helpers).calls(), stopped) && kept_in(
                stopped_failures(stopped),
                error.spec_cleanup_failures(),
            ),
{
    let ghost managed = child.process_tree_managed;
    let ghost before = child.calls();
    let ghost hbefore = helpers.calls();
    let termination = terminate_process(child, None);
    let ghost term = termination;
    let ghost after = child.calls();
    let mut failures = match termination {
        Ok(outcome) => outcome.cleanup_failures,
        Err(failure) => failure.into_cleanup_failures(),
    };
    let ghost term_failures = failures@;
    let stopped = helpers.cancel_and_join();
    let ghost stopped_g = stopped;
    let StoppedHelpers { cancellation_failures, stdout, stderr, stdin } = stopped;
    let mut helper_failures = cancel_and_join_failures(cancellation_failures, stdout, stderr, stdin);
    let ghost helper_seq = helper_failures@;
    proof {
        assert(helper_seq =~= stopped_failures(stopped_g));
        assert(helpers.calls().subrange(0, hbefore.len() as int + 1) =~= hbefore.push(
            HelperCall::CancelAndJoin(stopped_g),
        ));
        assert(helpers_stopped(hbefore, helpers.calls(), stopped_g));
    }
    failures.append(&mut helper_failures);
    let ghost all = failures@;
    let error = primary.with_cleanup_failures(failures);
    proof {
        lemma_canonical_order_is_permutation(
            primary.spec_cleanup_failures() + all,
        );
        assert(all == term_failures + helper_seq);
        vstd::seq_lib::lemma_multiset_commutative(term_failures, helper_seq);
        assert forall|v: CommandCleanupFailure| term_failures.to_multiset().count(v) <= all.to_multiset().count(v)
            && helper_seq.to_multiset().count(v) <= all.to_multiset().count(v) by {
            broadcast use vstd::multiset::group_multiset_axioms;
        }
        assert(kept_in(term_failures, all));
        assert(kept_in(helper_seq, all));
        lemma_canonical_order_keeps_parts(primary.spec_cleanup_failures(), all);
        lemma_kept_in_trans(term_failures, all, error.spec_cleanup_failures());
        lemma_kept_in_trans(helper_seq, all, error.spec_cleanup_failures());
        let responses = choose|responses: TerminationResponses|
            {
                &&& terminated_as(before, after, managed, None, responses)
                &&& #[trigger] outcome_is(term, termination_result(managed, None, responses))
            };
        assert(terminated_as(before, after, managed, None, responses));
        assert(termination_failures(termination_result(managed, None, responses)) == term_failures);
    }
    error
}

/// What a wait observes besides the child: the cancellation flag, the
/// clock, and whether the helpers have finished.
///
/// Implementations report what the operating system reports; nothing is
/// assumed about the values they return.
pub trait RunMonitor {
    /// Whether cancellation has been requested.
    fn is_cancelled(&self) -> bool;

    /// Time elapsed since the child was spawned.
    fn elapsed(&mut self) -> Result<TimeSpan, TimeFailure>;

    /// Sleeps for `span`.
    fn sleep(&mut self, span: TimeSpan) -> Result<(), TimeFailure>;

    /// Whether every helper has finished.
    fn helpers_finished(&mut self) -> bool;
}

/// One call made to a wait's monitor, with its answer.
pub enum MonitorCall {
    /// `is_cancelled` and its answer.
    Cancelled(bool),
    /// `elapsed` and its answer.
    Elapsed(Result<TimeSpan, TimeFailure>),
    /// `sleep`, the span handed to it, and its answer.
    Sleep(TimeSpan, Result<(), TimeFailure>),
    /// `helpers_finished` and its answer.
    HelpersFinished(bool),
}

/// A monitor together with the record of every call made to it, with the
/// answers.
pub struct RecordedMonitor<M> {
    /// The monitor.
    pub monitor: M,
    /// The calls made so far, in order.
    pub calls: Ghost<Seq<MonitorCall>>,
}

impl<M> RecordedMonitor<M> {
    /// Wraps a monitor with an empty record.
    pub fn new(monitor: M) -> (recorded: Self)
        ensures
            recorded.monitor == monitor,
            recorded.calls() == Seq::<MonitorCall>::empty(),
    {
        RecordedMonitor { monitor, calls: Ghost(Seq::empty()) }
    }

    /// The calls made so far, in order.
    pub open spec fn calls(&self) -> Seq<MonitorCall> {
        self.calls@
    }
}

impl<M: RunMonitor> RecordedMonitor<M> {
    /// `is_cancelled`, recorded.
    pub fn is_cancelled(&mut self) -> (cancelled: bool)
        ensures
            final(self).calls() == old(self).calls().push(MonitorCall::Cancelled(cancelled)),
    {
        let cancelled = self.monitor.is_cancelled();
        self.calls = Ghost(self.calls@.push(MonitorCall::Cancelled(cancelled)));
        cancelled
    }

    /// `elapsed`, recorded.
    pub fn elapsed(&mut self) -> (elapsed: Result<TimeSpan, TimeFailure>)
        ensures
            final(self).calls() == old(self).calls().push(MonitorCall::Elapsed(elapsed)),
    {
        let elapsed = self.monitor.elapsed();
        self.calls = Ghost(self.calls@.push(MonitorCall::Elapsed(elapsed)));
        elapsed
    }

    /// `sleep`, recorded.
    pub fn sleep(&mut self, span: TimeSpan) -> (slept: Result<(), TimeFailure>)
        ensures
            final(self).calls() == old(self).calls().push(MonitorCall::Sleep(span, slept)),
    {
        let slept = self.monitor.sleep(span);
        self.calls = Ghost(self.calls@.push(MonitorCall::Sleep(span, slept)));
        slept
    }

    /// `helpers_finished`, recorded.
    pub fn helpers_finished(&mut self) -> (finished: bool)
        ensures
            final(self).calls() == old(self).calls().push(MonitorCall::HelpersFinished(finished)),
    {
        let finished = self.monitor.helpers_finished();
        self.calls = Ghost(self.calls@.push(MonitorCall::HelpersFinished(finished)));
        finished
    }
}

/// What a wait's monitor reported that ends a wait: cancellation, the
/// timeout elapsed, a clock failure (the first), or finished helpers.
pub struct MonitorSeen {
    /// Cancellation was reported.
    pub cancelled: bool,
    /// An elapsed time at or past the timeout was reported.
    pub timed_out: bool,
    /// The first clock failure reported, by `elapsed` or `sleep`.
    pub failure: Option<TimeFailure>,
    /// Finished helpers were reported.
    pub finished: bool,
}

/// Whether `elapsed` reached the timeout.
pub open spec fn reached_timeout(spent: TimeSpan, timeout: Option<TimeSpan>) -> bool {
    match timeout {
        Some(limit) => spent.view_nanos() >= limit.view_nanos(),
        None => false,
    }
}

/// What the calls show of the answers that end a wait.
pub open spec fn monitor_seen(calls: Seq<MonitorCall>, timeout: Option<TimeSpan>) -> MonitorSeen
    decreases calls.len(),
{
    if calls.len() == 0 {
        MonitorSeen { cancelled: false, timed_out: false, failure: None, finished: false }
    } else {
        let seen = monitor_seen(calls.drop_last(), timeout);
        match calls.last() {
            MonitorCall::Cancelled(cancelled) => MonitorSeen { cancelled: seen.cancelled || cancelled, ..seen },
            MonitorCall::Elapsed(Ok(spent)) => MonitorSeen {
                timed_out: seen.timed_out || reached_timeout(spent, timeout),
                ..seen
            },
            MonitorCall::Elapsed(Err(source)) => MonitorSeen {
                failure: if seen.failure is Some {
                    seen.failure
                } else {
                    Some(source)
                },
                ..seen
            },
            MonitorCall::Sleep(_, Err(source)) => MonitorSeen {
                failure: if seen.failure is Some {
                    seen.failure
                } else {
                    Some(source)
                },
                ..seen
            },
            MonitorCall::Sleep(_, Ok(_)) => seen,
            MonitorCall::HelpersFinished(finished) => MonitorSeen { finished: seen.finished || finished, ..seen },
        }
    }
}

/// Nothing that ends a wait was reported.
pub open spec fn nothing_seen(seen: MonitorSeen) -> bool {
    !seen.cancelled && !seen.timed_out && seen.failure is None && !seen.finished
}

/// How a wait's event follows from what its monitor reported: it is a
/// cancellation exactly when cancellation was reported; a timeout exactly
/// when the elapsed time reached the timeout without cancellation; a clock
/// failure exactly when one was reported without cancellation; and when
/// finished helpers were reported it is the exit with the known status.
pub open spec fn ended_as_reported(
    calls: Seq<MonitorCall>,
    event: RunEvent,
    timeout: Option<TimeSpan>,
    known: Option<ExitStatus>,
) -> bool {
    let seen = monitor_seen(calls, timeout);
    &&& (event is Cancelled) == seen.cancelled
    &&& (event is TimedOut) == (seen.timed_out && !seen.cancelled)
    &&& (event is TimeFailed) == (seen.failure is Some && !seen.cancelled && !seen.timed_out)
    &&& event is TimeFailed ==> seen.failure == Some(event->TimeFailed_source)
    &&& seen.finished ==> known.is_some() && event == RunEvent::Exited(known.unwrap())
}

/// Extending a monitor record by one call unfolds its summary by one step.
proof fn lemma_monitor_push(base: Seq<MonitorCall>, calls: Seq<MonitorCall>, call: MonitorCall, timeout: Option<TimeSpan>)
    ensures
        (base + calls).push(call) == base + calls.push(call),
        calls.push(call).drop_last() == calls,
        monitor_seen(calls.push(call), timeout) == {
            let seen = monitor_seen(calls, timeout);
            match call {
                MonitorCall::Cancelled(cancelled) => MonitorSeen { cancelled: seen.cancelled || cancelled, ..seen },
                MonitorCall::Elapsed(Ok(spent)) => MonitorSeen {
                    timed_out: seen.timed_out || reached_timeout(spent, timeout),
                    ..seen
                },
                MonitorCall::Elapsed(Err(source)) => MonitorSeen {
                    failure: if seen.failure is Some {
                        seen.failure
                    } else {
                        Some(source)
                    },
                    ..seen
                },
                MonitorCall::Sleep(_, Err(source)) => MonitorSeen {
                    failure: if seen.failure is Some {
                        seen.failure
                    } else {
                        Some(source)
                    },
                    ..seen
                },
                MonitorCall::Sleep(_, Ok(_)) => seen,
                MonitorCall::HelpersFinished(finished) => MonitorSeen {
                    finished: seen.finished || finished,
                    ..seen
                },
            }
        },
{
    assert(calls.push(call).drop_last() =~= calls);
    assert((base + calls).push(call) =~= base + calls.push(call));
}

/// What a wait may end with, given whether a timeout and a cancellation
/// handle are configured and the exit status already known.
pub open spec fn event_allowed(
    event: RunEvent,
    timeout: Option<TimeSpan>,
    cancellable: bool,
    known: Option<ExitStatus>,
) -> bool {
    match event {
        RunEvent::Exited(status) => known.is_none() || known == Some(status),
        RunEvent::WaitFailed(_) => known.is_none(),
        RunEvent::TimedOut { timeout: limit, status } => timeout == Some(limit) && status == known,
        RunEvent::Cancelled { status } => cancellable && status == known,
        RunEvent::TimeFailed { status, .. } => (timeout.is_some() || cancellable) && status == known,
    }
}

/// The calls a wait made to the child, and the event it ended with: without
/// a timeout and a cancellation handle, one blocking wait whose answer is
/// the event; otherwise exit checks that found the
/// child running until the last, which ends the wait when it found the
/// child exited or failed.
pub open spec fn waited_as(calls: Seq<ChildCall>, event: RunEvent, timeout: Option<TimeSpan>, cancellable: bool) -> bool {
    if timeout.is_none() && !cancellable {
        &&& calls.len() == 1
        &&& match calls[0] {
            ChildCall::Wait(Ok(status)) => event == RunEvent::Exited(status),
            ChildCall::Wait(Err(source)) => event == RunEvent::WaitFailed(source),
            _ => false,
        }
    } else {
        &&& calls.len() >= 1
        &&& forall|i: int| 0 <= i < calls.len() - 1 ==> calls[i] == ChildCall::TryWait(Ok(None))
        &&& match calls.last() {
            ChildCall::TryWait(Ok(Some(status))) => event == RunEvent::Exited(status),
            ChildCall::TryWait(Err(source)) => event == RunEvent::WaitFailed(source),
            ChildCall::TryWait(Ok(None)) => !(event is Exited),
            _ => false,
        }
    }
}

/// One poll of a wait's monitor: checks cancellation (when a handle is
/// configured) and the elapsed time (when a timeout is), then either ends
/// the wait as [`decide_wait_step`] decides or sleeps as it chooses. Returns
/// the event that ends the wait, if any, and the monitor calls recorded
/// since `base`.
fn poll_monitor<M: RunMonitor>(
    monitor: &mut RecordedMonitor<M>,
    Ghost(base): Ghost<Seq<MonitorCall>>,
    Ghost(reported): Ghost<Seq<MonitorCall>>,
    known: Option<ExitStatus>,
    cancellable: bool,
    timeout: Option<TimeSpan>,
    poll_count: usize,
) -> (result: (Option<RunEvent>, Ghost<Seq<MonitorCall>>))
    requires
        timeout.is_some() || cancellable,
        old(monitor).calls() == base + reported,
        nothing_seen(monitor_seen(reported, timeout)),
    ensures
        final(monitor).calls() == base + result.1@,
        result.1@.len() >= reported.len(),
        result.0 is None ==> nothing_seen(monitor_seen(result.1@, timeout)),
        result.0 is Some ==> {
            let event = result.0.unwrap();
            &&& ended_as_reported(result.1@, event, timeout, known)
            &&& event_allowed(event, timeout, cancellable, known)
            &&& !(event is Exited) && !(event is WaitFailed)
        },
{
    let ghost mut log = reported;
    let cancelled = if cancellable {
        let answer = monitor.is_cancelled();
        proof {
            lemma_monitor_push(base, log, MonitorCall::Cancelled(answer), timeout);
            log = log.push(MonitorCall::Cancelled(answer));
        }
        answer
    } else {
        false
    };
    let elapsed = match timeout {
        Some(_) => {
            let answer = monitor.elapsed();
            proof {
                lemma_monitor_push(base, log, MonitorCall::Elapsed(answer), timeout);
                log = log.push(MonitorCall::Elapsed(answer));
            }
            Some(answer)
        },
        None => None,
    };
    match decide_wait_step(known, cancelled, timeout, elapsed, poll_count) {
        WaitStep::Finish(event) => (Some(event), Ghost(log)),
        WaitStep::Sleep(span) => {
            let slept = monitor.sleep(span);
            proof {
                lemma_monitor_push(base, log, MonitorCall::Sleep(span, slept), timeout);
                log = log.push(MonitorCall::Sleep(span, slept));
            }
            match slept {
                Ok(()) => (None, Ghost(log)),
                Err(source) => (Some(RunEvent::TimeFailed { source, status: known }), Ghost(log)),
            }
        },
    }
}

/// Waits until the child exits, the timeout elapses, cancellation is
/// requested, or waiting or the clock fails.
///
/// Without a timeout and a cancellation handle this is one blocking wait.
/// Otherwise the child is polled; between polls cancellation is checked
/// first, then the elapsed time against the timeout, then the wait sleeps
/// as [`decide_wait_step`] chooses.
pub fn wait_for_event<C: ChildControl, M: RunMonitor>(
    child: &mut ManagedChildProcess<C>,
    monitor: &mut RecordedMonitor<M>,
    timeout: Option<TimeSpan>,
    cancellable: bool,
) -> (event: RunEvent)
    ensures
        event_allowed(event, timeout, cancellable, None),
        timeout.is_none() && !cancellable ==> (event is Exited || event is WaitFailed),
        final(child).process_tree_managed == old(child).process_tree_managed,
        exists|calls: Seq<ChildCall>|
            final(child).calls() == old(child).calls() + calls && #[trigger] waited_as(
                calls,
                event,
                timeout,
                cancellable,
            ),
        exists|reported: Seq<MonitorCall>|
            final(monitor).calls() == old(monitor).calls() + reported && #[trigger] ended_as_reported(
                reported,
                event,
                timeout,
                None,
            ),
        timeout.is_none() && !cancellable ==> final(monitor).calls() == old(monitor).calls(),
{
    let ghost base = child.calls();
    let ghost mbase = monitor.calls();
    proof {
        assert(mbase + Seq::<MonitorCall>::empty() =~= mbase);
    }
    if timeout.is_none() && !cancellable {
        let waited = child.wait();
        let event = match waited {
            Ok(status) => RunEvent::Exited(status),
            Err(source) => RunEvent::WaitFailed(source),
        };
        proof {
            assert(child.calls() == base + seq![ChildCall::Wait(waited)]);
            assert(waited_as(seq![ChildCall::Wait(waited)], event, timeout, cancellable));
            assert(ended_as_reported(Seq::<MonitorCall>::empty(), event, timeout, None));
        }
        return event;
    }
    let mut poll_count: usize = 0;
    let mut polls: u64 = 0;
    let ghost mut polled: Seq<ChildCall> = Seq::empty();
    let ghost mut mlog: Seq<MonitorCall> = Seq::empty();
    while polls < u64::MAX
        invariant
            timeout.is_some() || cancellable,
            base == old(child).calls(),
            child.calls() == base + polled,
            child.process_tree_managed == old(child).process_tree_managed,
            polls == 0 ==> polled.len() == 0,
            polls > 0 ==> polled.len() >= 1 && polled.last() == ChildCall::TryWait(Ok(None)),
            forall|i: int| 0 <= i < polled.len() ==> polled[i] == ChildCall::TryWait(Ok(None)),
            mbase == old(monitor).calls(),
            monitor.calls() == mbase + mlog,
            nothing_seen(monitor_seen(mlog, timeout)),
        decreases u64::MAX - polls,
    {
        polls = polls + 1;
        let checked = child.try_wait();
        proof {
            polled = polled.push(ChildCall::TryWait(checked));
            assert(child.calls() =~= base + polled);
        }
        match checked {
            Ok(Some(status)) => {
                proof {
                    assert(waited_as(polled, RunEvent::Exited(status), timeout, cancellable));
                    assert(ended_as_reported(mlog, RunEvent::Exited(status), timeout, None));
                }
                return RunEvent::Exited(status);
            },
            Ok(None) => {},
            Err(source) => {
                proof {
                    assert(waited_as(polled, RunEvent::WaitFailed(source), timeout, cancellable));
                    assert(ended_as_reported(mlog, RunEvent::WaitFailed(source), timeout, None));
                }
                return RunEvent::WaitFailed(source);
            },
        }
        proof {
            assert(polled.last() == ChildCall::TryWait(Ok(None)));
        }
        let (step, Ghost(reported)) = poll_monitor(
            monitor,
            Ghost(mbase),
            Ghost(mlog),
            None,
            cancellable,
            timeout,
            poll_count,
        );
        proof {
            mlog = reported;
        }
        match step {
            Some(event) => {
                proof {
                    assert(waited_as(polled, event, timeout, cancellable));
                    assert(ended_as_reported(mlog, event, timeout, None));
                }
                return event;
            },
            None => {},
        }
        if poll_count < usize::MAX {
            poll_count = poll_count + 1;
        }
    }
    let event = RunEvent::WaitFailed(IoFailure::other("the wait did not finish"));
    proof {
        assert(waited_as(polled, event, timeout, cancellable));
        assert(ended_as_reported(mlog, event, timeout, None));
    }
    event
}

/// Waits, after the child exited with `status`, until its helpers finish,
/// the timeout (still measured from the spawn) elapses, cancellation is
/// requested, or the clock fails.
///
/// Without a timeout and a cancellation handle the helpers are not waited
/// for here, and the monitor is not used: collecting their results waits
/// for them. Otherwise the wait ends with the exit only once the monitor
/// reported the helpers finished (or the poll limit is spent).
pub fn wait_for_helpers<M: RunMonitor>(
    monitor: &mut RecordedMonitor<M>,
    status: ExitStatus,
    timeout: Option<TimeSpan>,
    cancellable: bool,
) -> (event: RunEvent)
    ensures
        event_allowed(event, timeout, cancellable, Some(status)),
        timeout.is_none() && !cancellable ==> event == RunEvent::Exited(status),
        exists|reported: Seq<MonitorCall>|
            final(monitor).calls() == old(monitor).calls() + reported && #[trigger] ended_as_reported(
                reported,
                event,
                timeout,
                Some(status),
            ) && ((timeout.is_some() || cancellable) && event is Exited ==> monitor_seen(reported, timeout).finished
                || reported.len() >= u64::MAX),
        timeout.is_none() && !cancellable ==> final(monitor).calls() == old(monitor).calls(),
{
    let ghost mbase = monitor.calls();
    let ghost mut mlog: Seq<MonitorCall> = Seq::empty();
    proof {
        assert(mbase + mlog =~= mbase);
    }
    if timeout.is_none() && !cancellable {
        proof {
            assert(ended_as_reported(mlog, RunEvent::Exited(status), timeout, Some(status)));
        }
        return RunEvent::Exited(status);
    }
    let mut poll_count: usize = 0;
    let mut polls: u64 = 0;
    while polls < u64::MAX
        invariant
            timeout.is_some() || cancellable,
            mbase == old(monitor).calls(),
            monitor.calls() == mbase + mlog,
            nothing_seen(monitor_seen(mlog, timeout)),
            mlog.len() >= polls,
        decreases u64::MAX - polls,
    {
        polls = polls + 1;
        let finished = monitor.helpers_finished();
        proof {
            lemma_monitor_push(mbase, mlog, MonitorCall::HelpersFinished(finished), timeout);
            mlog = mlog.push(MonitorCall::HelpersFinished(finished));
        }
        if finished {
            proof {
                assert(ended_as_reported(mlog, RunEvent::Exited(status), timeout, Some(status)));
            }
            return RunEvent::Exited(status);
        }
        let (step, Ghost(reported)) = poll_monitor(
            monitor,
            Ghost(mbase),
            Ghost(mlog),
            Some(status),
            cancellable,
            timeout,
            poll_count,
        );
        proof {
            mlog = reported;
        }
        match step {
            Some(event) => {
                return event;
            },
            None => {},
        }
        if poll_count < usize::MAX {
            poll_count = poll_count + 1;
        }
    }
    proof {
        assert(ended_as_reported(mlog, RunEvent::Exited(status), timeout, Some(status)));
    }
    RunEvent::Exited(status)
}

} // verus!
