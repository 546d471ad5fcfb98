//! Secondary cleanup failures retained alongside a command's primary error.

use std::path::PathBuf;
use vstd::multiset::Multiset;
use vstd::prelude::*;

use crate::IoFailure;
use crate::TimeFailure;

verus! {

/// Failure observed while cleaning up after a command's primary result was
/// already determined.
pub enum CommandCleanupFailure {
    /// Waiting for the final child status failed.
    Wait {
        /// Operating-system wait error.
        source: IoFailure,
    },
    /// Terminating the process tree failed.
    ProcessTreeTermination {
        /// Operating-system process-tree termination error.
        source: IoFailure,
    },
    /// Terminating the direct child failed.
    ChildTermination {
        /// Operating-system direct-child termination error.
        source: IoFailure,
    },
    /// Measuring the run's elapsed time failed.
    Time {
        /// Clock or timer error.
        source: TimeFailure,
    },
    /// The stdin helper failed during cleanup.
    Stdin {
        /// Stdin helper cleanup error.
        source: IoFailure,
    },
    /// Interrupting the stdin helper failed.
    StdinCancellation {
        /// Cancellation error.
        source: IoFailure,
    },
    /// Interrupting the stdout reader failed.
    StdoutCancellation {
        /// Cancellation error.
        source: IoFailure,
    },
    /// The stdout reader failed during cleanup.
    StdoutRead {
        /// Stdout reader cleanup error.
        source: IoFailure,
    },
    /// The stdout tee failed during cleanup.
    StdoutWrite {
        /// Configured stdout tee path.
        path: PathBuf,
        /// Stdout tee cleanup error.
        source: IoFailure,
    },
    /// Interrupting the stderr reader failed.
    StderrCancellation {
        /// Cancellation error.
        source: IoFailure,
    },
    /// The stderr reader failed during cleanup.
    StderrRead {
        /// Stderr reader cleanup error.
        source: IoFailure,
    },
    /// The stderr tee failed during cleanup.
    StderrWrite {
        /// Configured stderr tee path.
        path: PathBuf,
        /// Stderr tee cleanup error.
        source: IoFailure,
    },
}

/// The resource a cleanup failure concerns, as its position in the canonical
/// reporting order: process tree, direct child, wait, time, stdout, stderr,
/// stdin.
pub open spec fn cleanup_rank(failure: CommandCleanupFailure) -> int {
    match failure {
        CommandCleanupFailure::ProcessTreeTermination { .. } => 0,
        CommandCleanupFailure::ChildTermination { .. } => 1,
        CommandCleanupFailure::Wait { .. } => 2,
        CommandCleanupFailure::Time { .. } => 3,
        CommandCleanupFailure::StdoutCancellation { .. } => 4,
        CommandCleanupFailure::StdoutRead { .. } => 4,
        CommandCleanupFailure::StdoutWrite { .. } => 4,
        CommandCleanupFailure::StderrCancellation { .. } => 5,
        CommandCleanupFailure::StderrRead { .. } => 5,
        CommandCleanupFailure::StderrWrite { .. } => 5,
        CommandCleanupFailure::Stdin { .. } => 6,
        CommandCleanupFailure::StdinCancellation { .. } => 6,
    }
}

/// Returns the canonical resource rank of a cleanup failure.
pub fn cleanup_failure_rank(failure: &CommandCleanupFailure) -> (rank: u8)
    ensures
        rank == cleanup_rank(*failure),
        rank <= 6,
{
    match failure {
        CommandCleanupFailure::ProcessTreeTermination { .. } => 0,
        CommandCleanupFailure::ChildTermination { .. } => 1,
        CommandCleanupFailure::Wait { .. } => 2,
        CommandCleanupFailure::Time { .. } => 3,
        CommandCleanupFailure::StdoutCancellation { .. }
        | CommandCleanupFailure::StdoutRead { .. }
        | CommandCleanupFailure::StdoutWrite { .. } => 4,
        CommandCleanupFailure::StderrCancellation { .. }
        | CommandCleanupFailure::StderrRead { .. }
        | CommandCleanupFailure::StderrWrite { .. } => 5,
        CommandCleanupFailure::Stdin { .. } | CommandCleanupFailure::StdinCancellation { .. } => 6,
    }
}

/// The failures of `failures` whose rank is `rank`, in their original order.
pub open spec fn failures_of_rank(failures: Seq<CommandCleanupFailure>, rank: int) -> Seq<
    CommandCleanupFailure,
>
    decreases failures.len(),
{
    if failures.len() == 0 {
        seq![]
    } else {
        let earlier = failures_of_rank(failures.drop_last(), rank);
        if cleanup_rank(failures.last()) == rank {
            earlier.push(failures.last())
        } else {
            earlier
        }
    }
}

/// Canonical order of cleanup failures: grouped by resource rank in
/// ascending order, keeping the original relative order within each rank.
pub open spec fn canonical_order(failures: Seq<CommandCleanupFailure>) -> Seq<CommandCleanupFailure> {
    failures_of_rank(failures, 0) + failures_of_rank(failures, 1) + failures_of_rank(failures, 2)
        + failures_of_rank(failures, 3) + failures_of_rank(failures, 4) + failures_of_rank(
        failures,
        5,
    ) + failures_of_rank(failures, 6)
}

/// Appending one failure extends exactly the group of its own rank.
pub proof fn lemma_failures_of_rank_push(
    failures: Seq<CommandCleanupFailure>,
    failure: CommandCleanupFailure,
    rank: int,
)
    ensures
        failures_of_rank(failures.push(failure), rank) == if cleanup_rank(failure) == rank {
            failures_of_rank(failures, rank).push(failure)
        } else {
            failures_of_rank(failures, rank)
        },
{
    assert(failures.push(failure).drop_last() =~= failures);
}

/// Every failure in the group of `rank` has that rank.
pub proof fn lemma_failures_of_rank_have_rank(failures: Seq<CommandCleanupFailure>, rank: int)
    ensures
        forall|i: int|
            0 <= i < failures_of_rank(failures, rank).len() ==> cleanup_rank(
                #[trigger] failures_of_rank(failures, rank)[i],
            ) == rank,
    decreases failures.len(),
{
    if failures.len() > 0 {
        let earlier = failures_of_rank(failures.drop_last(), rank);
        lemma_failures_of_rank_have_rank(failures.drop_last(), rank);
        if cleanup_rank(failures.last()) == rank {
            assert forall|i: int| 0 <= i < earlier.push(failures.last()).len() implies cleanup_rank(
                #[trigger] earlier.push(failures.last())[i],
            ) == rank by {
                if i < earlier.len() {
                    assert(earlier.push(failures.last())[i] == earlier[i]);
                }
            }
        }
    }
}

/// Grouping distributes over concatenation.
pub proof fn lemma_failures_of_rank_concat(
    left: Seq<CommandCleanupFailure>,
    right: Seq<CommandCleanupFailure>,
    rank: int,
)
    ensures
        failures_of_rank(left + right, rank) == failures_of_rank(left, rank) + failures_of_rank(right, rank),
    decreases right.len(),
{
    if right.len() == 0 {
        assert(left + right =~= left);
        assert(failures_of_rank(left, rank) + failures_of_rank(right, rank) =~= failures_of_rank(left, rank));
    } else {
        assert((left + right).drop_last() =~= left + right.drop_last());
        assert((left + right).last() == right.last());
        lemma_failures_of_rank_concat(left, right.drop_last(), rank);
        if cleanup_rank(right.last()) == rank {
            assert(failures_of_rank(left, rank) + failures_of_rank(right.drop_last(), rank).push(right.last())
                =~= (failures_of_rank(left, rank) + failures_of_rank(right.drop_last(), rank)).push(right.last()));
        }
    }
}

/// Grouping a sequence whose failures all have rank `own` keeps all of it
/// for that rank and nothing for any other.
pub proof fn lemma_failures_of_rank_uniform(failures: Seq<CommandCleanupFailure>, own: int, rank: int)
    requires
        forall|i: int| 0 <= i < failures.len() ==> cleanup_rank(#[trigger] failures[i]) == own,
    ensures
        failures_of_rank(failures, rank) == if rank == own {
            failures
        } else {
            Seq::<CommandCleanupFailure>::empty()
        },
    decreases failures.len(),
{
    if failures.len() > 0 {
        let init = failures.drop_last();
        assert forall|i: int| 0 <= i < init.len() implies cleanup_rank(#[trigger] init[i]) == own by {
            assert(init[i] == failures[i]);
        }
        lemma_failures_of_rank_uniform(init, own, rank);
        assert(failures.last() == failures[failures.len() - 1]);
        if rank == own {
            assert(init.push(failures.last()) =~= failures);
        }
    }
}

/// No failure has a rank outside the seven resources.
pub proof fn lemma_failures_of_rank_out_of_range(failures: Seq<CommandCleanupFailure>, rank: int)
    requires
        rank < 0 || rank > 6,
    ensures
        failures_of_rank(failures, rank) == Seq::<CommandCleanupFailure>::empty(),
{
    lemma_failures_of_rank_have_rank(failures, rank);
    if failures_of_rank(failures, rank).len() > 0 {
        let first = failures_of_rank(failures, rank)[0];
        assert(cleanup_rank(first) == rank);
        assert(0 <= cleanup_rank(first) <= 6);
    }
    assert(failures_of_rank(failures, rank) =~= Seq::<CommandCleanupFailure>::empty());
}

/// Law: canonical ordering keeps the failures of each resource, in their
/// original relative order.
pub proof fn lemma_canonical_order_keeps_each_rank(failures: Seq<CommandCleanupFailure>, rank: int)
    ensures
        failures_of_rank(canonical_order(failures), rank) == failures_of_rank(failures, rank),
{
    let g0 = failures_of_rank(failures, 0);
    let g1 = failures_of_rank(failures, 1);
    let g2 = failures_of_rank(failures, 2);
    let g3 = failures_of_rank(failures, 3);
    let g4 = failures_of_rank(failures, 4);
    let g5 = failures_of_rank(failures, 5);
    let g6 = failures_of_rank(failures, 6);
    lemma_failures_of_rank_have_rank(failures, 0);
    lemma_failures_of_rank_have_rank(failures, 1);
    lemma_failures_of_rank_have_rank(failures, 2);
    lemma_failures_of_rank_have_rank(failures, 3);
    lemma_failures_of_rank_have_rank(failures, 4);
    lemma_failures_of_rank_have_rank(failures, 5);
    lemma_failures_of_rank_have_rank(failures, 6);
    lemma_failures_of_rank_uniform(g0, 0, rank);
    lemma_failures_of_rank_uniform(g1, 1, rank);
    lemma_failures_of_rank_uniform(g2, 2, rank);
    lemma_failures_of_rank_uniform(g3, 3, rank);
    lemma_failures_of_rank_uniform(g4, 4, rank);
    lemma_failures_of_rank_uniform(g5, 5, rank);
    lemma_failures_of_rank_uniform(g6, 6, rank);
    lemma_failures_of_rank_concat(g0, g1, rank);
    lemma_failures_of_rank_concat(g0 + g1, g2, rank);
    lemma_failures_of_rank_concat(g0 + g1 + g2, g3, rank);
    lemma_failures_of_rank_concat(g0 + g1 + g2 + g3, g4, rank);
    lemma_failures_of_rank_concat(g0 + g1 + g2 + g3 + g4, g5, rank);
    lemma_failures_of_rank_concat(g0 + g1 + g2 + g3 + g4 + g5, g6, rank);
    let empty = Seq::<CommandCleanupFailure>::empty();
    if rank < 0 || rank > 6 {
        lemma_failures_of_rank_out_of_range(failures, rank);
    }
    assert(failures_of_rank(canonical_order(failures), rank) =~= failures_of_rank(failures, rank));
}

/// Law: putting failures in canonical order twice is the same as once.
pub proof fn lemma_canonical_order_idempotent(failures: Seq<CommandCleanupFailure>)
    ensures
        canonical_order(canonical_order(failures)) == canonical_order(failures),
{
    lemma_canonical_order_keeps_each_rank(failures, 0);
    lemma_canonical_order_keeps_each_rank(failures, 1);
    lemma_canonical_order_keeps_each_rank(failures, 2);
    lemma_canonical_order_keeps_each_rank(failures, 3);
    lemma_canonical_order_keeps_each_rank(failures, 4);
    lemma_canonical_order_keeps_each_rank(failures, 5);
    lemma_canonical_order_keeps_each_rank(failures, 6);
}

/// Law: adding failures to ones already in canonical order and ordering
/// again gives the canonical order of all of them together.
pub proof fn lemma_canonical_order_absorbs(earlier: Seq<CommandCleanupFailure>, later: Seq<CommandCleanupFailure>)
    ensures
        canonical_order(canonical_order(earlier) + later) == canonical_order(earlier + later),
{
    lemma_failures_of_rank_concat(canonical_order(earlier), later, 0);
    lemma_failures_of_rank_concat(earlier, later, 0);
    lemma_canonical_order_keeps_each_rank(earlier, 0);
    lemma_failures_of_rank_concat(canonical_order(earlier), later, 1);
    lemma_failures_of_rank_concat(earlier, later, 1);
    lemma_canonical_order_keeps_each_rank(earlier, 1);
    lemma_failures_of_rank_concat(canonical_order(earlier), later, 2);
    lemma_failures_of_rank_concat(earlier, later, 2);
    lemma_canonical_order_keeps_each_rank(earlier, 2);
    lemma_failures_of_rank_concat(canonical_order(earlier), later, 3);
    lemma_failures_of_rank_concat(earlier, later, 3);
    lemma_canonical_order_keeps_each_rank(earlier, 3);
    lemma_failures_of_rank_concat(canonical_order(earlier), later, 4);
    lemma_failures_of_rank_concat(earlier, later, 4);
    lemma_canonical_order_keeps_each_rank(earlier, 4);
    lemma_failures_of_rank_concat(canonical_order(earlier), later, 5);
    lemma_failures_of_rank_concat(earlier, later, 5);
    lemma_canonical_order_keeps_each_rank(earlier, 5);
    lemma_failures_of_rank_concat(canonical_order(earlier), later, 6);
    lemma_failures_of_rank_concat(earlier, later, 6);
    lemma_canonical_order_keeps_each_rank(earlier, 6);
    assert(failures_of_rank(canonical_order(earlier) + later, 0) == failures_of_rank(earlier + later, 0));
    assert(failures_of_rank(canonical_order(earlier) + later, 1) == failures_of_rank(earlier + later, 1));
    assert(failures_of_rank(canonical_order(earlier) + later, 2) == failures_of_rank(earlier + later, 2));
    assert(failures_of_rank(canonical_order(earlier) + later, 3) == failures_of_rank(earlier + later, 3));
    assert(failures_of_rank(canonical_order(earlier) + later, 4) == failures_of_rank(earlier + later, 4));
    assert(failures_of_rank(canonical_order(earlier) + later, 5) == failures_of_rank(earlier + later, 5));
    assert(failures_of_rank(canonical_order(earlier) + later, 6) == failures_of_rank(earlier + later, 6));
}

/// The combined size of the seven resource groups.
pub open spec fn grouped_len(failures: Seq<CommandCleanupFailure>) -> nat {
    failures_of_rank(failures, 0).len() + failures_of_rank(failures, 1).len() + failures_of_rank(failures, 2).len()
        + failures_of_rank(failures, 3).len() + failures_of_rank(failures, 4).len() + failures_of_rank(
        failures,
        5,
    ).len() + failures_of_rank(failures, 6).len()
}

/// The combined multiset of the seven resource groups.
pub open spec fn grouped_multiset(failures: Seq<CommandCleanupFailure>) -> Multiset<CommandCleanupFailure> {
    failures_of_rank(failures, 0).to_multiset().add(failures_of_rank(failures, 1).to_multiset()).add(
        failures_of_rank(failures, 2).to_multiset(),
    ).add(failures_of_rank(failures, 3).to_multiset()).add(failures_of_rank(failures, 4).to_multiset()).add(
        failures_of_rank(failures, 5).to_multiset(),
    ).add(failures_of_rank(failures, 6).to_multiset())
}

proof fn lemma_grouping_loses_nothing(failures: Seq<CommandCleanupFailure>)
    ensures
        grouped_len(failures) == failures.len(),
        grouped_multiset(failures) == failures.to_multiset(),
    decreases failures.len(),
{
    broadcast use vstd::seq_lib::group_to_multiset_ensures;
    broadcast use vstd::multiset::group_multiset_axioms;

    if failures.len() == 0 {
        assert(grouped_multiset(failures) =~= Multiset::<CommandCleanupFailure>::empty());
    } else {
        let init = failures.drop_last();
        let last = failures.last();
        lemma_grouping_loses_nothing(init);
        assert(init.push(last) =~= failures);
        lemma_failures_of_rank_push(init, last, 0);
        lemma_failures_of_rank_push(init, last, 1);
        lemma_failures_of_rank_push(init, last, 2);
        lemma_failures_of_rank_push(init, last, 3);
        lemma_failures_of_rank_push(init, last, 4);
        lemma_failures_of_rank_push(init, last, 5);
        lemma_failures_of_rank_push(init, last, 6);
        assert(grouped_multiset(failures) =~= grouped_multiset(init).insert(last));
    }
}

/// Law: canonical ordering is a permutation: it neither loses nor adds a
/// failure.
pub proof fn lemma_canonical_order_is_permutation(failures: Seq<CommandCleanupFailure>)
    ensures
        canonical_order(failures).len() == failures.len(),
        canonical_order(failures).to_multiset() == failures.to_multiset(),
{
    broadcast use vstd::seq_lib::group_to_multiset_ensures;

    lemma_grouping_loses_nothing(failures);
    let g0 = failures_of_rank(failures, 0);
    let g1 = failures_of_rank(failures, 1);
    let g2 = failures_of_rank(failures, 2);
    let g3 = failures_of_rank(failures, 3);
    let g4 = failures_of_rank(failures, 4);
    let g5 = failures_of_rank(failures, 5);
    let g6 = failures_of_rank(failures, 6);
    vstd::seq_lib::lemma_multiset_commutative(g0, g1);
    vstd::seq_lib::lemma_multiset_commutative(g0 + g1, g2);
    vstd::seq_lib::lemma_multiset_commutative(g0 + g1 + g2, g3);
    vstd::seq_lib::lemma_multiset_commutative(g0 + g1 + g2 + g3, g4);
    vstd::seq_lib::lemma_multiset_commutative(g0 + g1 + g2 + g3 + g4, g5);
    vstd::seq_lib::lemma_multiset_commutative(g0 + g1 + g2 + g3 + g4 + g5, g6);
}

/// Law: adding failures to an error's cleanup failures and restoring
/// canonical order keeps every earlier and every added failure.
pub proof fn lemma_cleanup_failures_all_kept(earlier: Seq<CommandCleanupFailure>, added: Seq<CommandCleanupFailure>)
    ensures
        canonical_order(earlier + added).to_multiset() == earlier.to_multiset().add(added.to_multiset()),
        canonical_order(earlier + added).len() == earlier.len() + added.len(),
{
    lemma_canonical_order_is_permutation(earlier + added);
    vstd::seq_lib::lemma_multiset_commutative(earlier, added);
}

/// Law: merging two lists of failures into canonical order keeps every
/// failure of each list.
pub proof fn lemma_canonical_order_keeps_parts(first: Seq<CommandCleanupFailure>, second: Seq<CommandCleanupFailure>)
    ensures
        first.to_multiset().subset_of(canonical_order(first + second).to_multiset()),
        second.to_multiset().subset_of(canonical_order(first + second).to_multiset()),
{
    broadcast use vstd::multiset::group_multiset_axioms;

    lemma_cleanup_failures_all_kept(first, second);
    let merged = canonical_order(first + second).to_multiset();
    assert forall|v: CommandCleanupFailure| first.to_multiset().count(v) <= merged.count(v) by {}
    assert forall|v: CommandCleanupFailure| second.to_multiset().count(v) <= merged.count(v) by {}
}

/// Law: putting failures into canonical order keeps every failure.
pub proof fn lemma_canonical_order_keeps_all(failures: Seq<CommandCleanupFailure>)
    ensures
        failures.to_multiset().subset_of(canonical_order(failures).to_multiset()),
{
    broadcast use vstd::multiset::group_multiset_axioms;

    lemma_canonical_order_is_permutation(failures);
    assert forall|v: CommandCleanupFailure| failures.to_multiset().count(v) <= canonical_order(failures).to_multiset().count(v) by {}
}

/// Law: in canonical order, no failure of a later resource comes before a
/// failure of an earlier one.
pub proof fn lemma_canonical_order_is_sorted(failures: Seq<CommandCleanupFailure>, i: int, j: int)
    requires
        0 <= i < j < canonical_order(failures).len(),
    ensures
        cleanup_rank(canonical_order(failures)[i]) <= cleanup_rank(canonical_order(failures)[j]),
{
    let g0 = failures_of_rank(failures, 0);
    let g1 = failures_of_rank(failures, 1);
    let g2 = failures_of_rank(failures, 2);
    let g3 = failures_of_rank(failures, 3);
    let g4 = failures_of_rank(failures, 4);
    let g5 = failures_of_rank(failures, 5);
    let g6 = failures_of_rank(failures, 6);
    lemma_failures_of_rank_have_rank(failures, 0);
    lemma_failures_of_rank_have_rank(failures, 1);
    lemma_failures_of_rank_have_rank(failures, 2);
    lemma_failures_of_rank_have_rank(failures, 3);
    lemma_failures_of_rank_have_rank(failures, 4);
    lemma_failures_of_rank_have_rank(failures, 5);
    lemma_failures_of_rank_have_rank(failures, 6);
    let c = canonical_order(failures);
    let b1 = g0.len();
    let b2 = b1 + g1.len();
    let b3 = b2 + g2.len();
    let b4 = b3 + g3.len();
    let b5 = b4 + g4.len();
    let b6 = b5 + g5.len();
    assert forall|k: int| 0 <= k < c.len() implies cleanup_rank(#[trigger] c[k]) == if k < b1 {
        0int
    } else if k < b2 {
        1int
    } else if k < b3 {
        2int
    } else if k < b4 {
        3int
    } else if k < b5 {
        4int
    } else if k < b6 {
        5int
    } else {
        6int
    } by {
        if k < b1 {
            assert(c[k] == g0[k]);
        } else if k < b2 {
            assert(c[k] == g1[k - b1]);
        } else if k < b3 {
            assert(c[k] == g2[k - b2]);
        } else if k < b4 {
            assert(c[k] == g3[k - b3]);
        } else if k < b5 {
            assert(c[k] == g4[k - b4]);
        } else if k < b6 {
            assert(c[k] == g5[k - b5]);
        } else {
            assert(c[k] == g6[k - b6]);
        }
    }
    assert(cleanup_rank(c[i]) <= cleanup_rank(c[j]));
}

/// Sorts cleanup failures into canonical order without losing any: each
/// failure is moved to the group of its rank, keeping its relative order.
pub fn sort_cleanup_failures(failures: Vec<CommandCleanupFailure>) -> (sorted: Vec<
    CommandCleanupFailure,
>)
    ensures
        sorted@ == canonical_order(failures@),
{
    let ghost all = failures@;
    let mut rest = failures;
    let mut tree: Vec<CommandCleanupFailure> = Vec::new();
    let mut child: Vec<CommandCleanupFailure> = Vec::new();
    let mut wait: Vec<CommandCleanupFailure> = Vec::new();
    let mut time: Vec<CommandCleanupFailure> = Vec::new();
    let mut stdout: Vec<CommandCleanupFailure> = Vec::new();
    let mut stderr: Vec<CommandCleanupFailure> = Vec::new();
    let mut stdin: Vec<CommandCleanupFailure> = Vec::new();
    let ghost mut done: int = 0;
    while rest.len() > 0
        invariant
            0 <= done <= all.len(),
            rest@ == all.subrange(done, all.len() as int),
            tree@ == failures_of_rank(all.subrange(0, done), 0),
            child@ == failures_of_rank(all.subrange(0, done), 1),
            wait@ == failures_of_rank(all.subrange(0, done), 2),
            time@ == failures_of_rank(all.subrange(0, done), 3),
            stdout@ == failures_of_rank(all.subrange(0, done), 4),
            stderr@ == failures_of_rank(all.subrange(0, done), 5),
            stdin@ == failures_of_rank(all.subrange(0, done), 6),
        decreases rest.len(),
    {
        let ghost before = all.subrange(0, done);
        let failure = rest.remove(0);
        proof {
            assert(failure == all[done]);
            assert(all.subrange(0, done + 1) =~= before.push(failure));
            lemma_failures_of_rank_push(before, failure, 0);
            lemma_failures_of_rank_push(before, failure, 1);
            lemma_failures_of_rank_push(before, failure, 2);
            lemma_failures_of_rank_push(before, failure, 3);
            lemma_failures_of_rank_push(before, failure, 4);
            lemma_failures_of_rank_push(before, failure, 5);
            lemma_failures_of_rank_push(before, failure, 6);
            done = done + 1;
            assert(rest@ =~= all.subrange(done, all.len() as int));
        }
        let rank = cleanup_failure_rank(&failure);
        if rank == 0 {
            tree.push(failure);
        } else if rank == 1 {
            child.push(failure);
        } else if rank == 2 {
            wait.push(failure);
        } else if rank == 3 {
            time.push(failure);
        } else if rank == 4 {
            stdout.push(failure);
        } else if rank == 5 {
            stderr.push(failure);
        } else {
            stdin.push(failure);
        }
    }
    proof {
        assert(all.subrange(0, done) =~= all);
    }
    let mut sorted = tree;
    sorted.append(&mut child);
    sorted.append(&mut wait);
    sorted.append(&mut time);
    sorted.append(&mut stdout);
    sorted.append(&mut stderr);
    sorted.append(&mut stdin);
    sorted
}

} // verus!
