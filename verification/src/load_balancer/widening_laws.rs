//! What holds of `wait-and-widen`: what a wait pays for, and which clusters it leads to.

use super::choice_laws::{failed_clusters_are_left_out, failed_on};
use super::comparator::ClusterComparator;
use super::measures::Measures;
use super::request::{
    chosen, LoadBalancerCandidateChoice, LoadBalancerRequest, RoutedClusterSnapshot,
};
use super::score::{ranks_are_distinct, Score, SIGN_BIT};
use super::wait_and_widen::{
    admitted, admitted_indices, all_positions, are_open, can_open, choice_among,
    choice_within_limit, fastest_ttft, first_bucket_is_open_at_once, first_least, in_ttft_order,
    is_drawn_from, lemma_admitted, lemma_drawn_are_given, lemma_first_least, lemma_open,
    lemma_shuffled, lemma_with_capacity, not_slower, sampled_choice, slowest_ttft, ttfts,
    valid_positions, wait_and_widen_choice, wait_and_widen_chooses_a_usable_cluster,
    walk_can_open, with_capacity, WaitAndWidenConfig,
};
use vstd::multiset::Multiset;
use vstd::prelude::*;

verus! {

proof fn lemma_buckets<
    E: Fn(Score, Score, u64) -> bool,
    U: Fn(Score, Score, Score, Score) -> Option<Score>,
    L: Fn(u64, u64) -> Score,
>(
    config: WaitAndWidenConfig,
    measures: Measures<E, U, L>,
    estimates: Seq<Score>,
    at: int,
    first: int,
    waited: Score,
    count: int,
) -> (buckets: (Seq<int>, Seq<Score>))
    requires
        0 <= first < at <= estimates.len(),
        walk_can_open(config, measures, estimates, at, estimates[first], waited, count),
    ensures
        at <= count <= estimates.len(),
        buckets.0.len() == buckets.1.len(),
        buckets.0.len() >= 1,
        buckets.0[0] == first,
        buckets.1[0] == waited,
        buckets.0.last() < count,
        forall|k: int|
            0 <= k < buckets.0.len() - 1 ==> (if k == 0 {
                at
            } else {
                buckets.0[k] + 1
            }) <= #[trigger] buckets.0[k + 1] && measures.says_exceeds(
                estimates[buckets.0[k]],
                estimates[buckets.0[k + 1]],
                config.ttft_bucket_size_ms,
                true,
            ) && measures.says_unlock(
                buckets.1[k],
                estimates[buckets.0[k]],
                estimates[buckets.0[k + 1]],
                config.next_bucket_unlock_factor,
                Some(buckets.1[k + 1]),
            ),
        forall|k: int, i: int|
            #![trigger buckets.0[k], estimates[i]]
            0 <= k < buckets.0.len() && at <= i && buckets.0[k] < i < (if k + 1
                < buckets.0.len() {
                buckets.0[k + 1]
            } else {
                count
            }) ==> measures.says_exceeds(
                estimates[buckets.0[k]],
                estimates[i],
                config.ttft_bucket_size_ms,
                false,
            ),
        forall|i: int| at <= i < count ==> (#[trigger] estimates[i]).finite(),
        count < estimates.len() ==> !estimates[count].finite() || (measures.says_exceeds(
            estimates[buckets.0.last()],
            estimates[count],
            config.ttft_bucket_size_ms,
            true,
        ) && measures.says_unlock(
            buckets.1.last(),
            estimates[buckets.0.last()],
            estimates[count],
            config.next_bucket_unlock_factor,
            None,
        )),
    decreases estimates.len() - at,
{
    let start = estimates[first];
    if at >= estimates.len() || !estimates[at].finite() {
        (seq![first], seq![waited])
    } else if measures.says_exceeds(start, estimates[at], config.ttft_bucket_size_ms, false)
        && walk_can_open(config, measures, estimates, at + 1, start, waited, count) {
        let buckets = lemma_buckets(config, measures, estimates, at + 1, first, waited, count);
        assert forall|k: int, i: int|
            #![trigger buckets.0[k], estimates[i]]
            0 <= k < buckets.0.len() && at <= i && buckets.0[k] < i < (if k + 1
                < buckets.0.len() {
                buckets.0[k + 1]
            } else {
                count
            }) implies measures.says_exceeds(
            estimates[buckets.0[k]],
            estimates[i],
            config.ttft_bucket_size_ms,
            false,
        ) by {
            if k > 0 {
                lemma_later_starts(buckets.0, at + 1, k);
            }
        }
        buckets
    } else if measures.says_exceeds(start, estimates[at], config.ttft_bucket_size_ms, true)
        && measures.says_unlock(
        waited,
        start,
        estimates[at],
        config.next_bucket_unlock_factor,
        None,
    ) && count == at {
        (seq![first], seq![waited])
    } else {
        let left = choose|left: Score|
            #[trigger] measures.says_unlock(
                waited,
                start,
                estimates[at],
                config.next_bucket_unlock_factor,
                Some(left),
            ) && walk_can_open(config, measures, estimates, at + 1, estimates[at], left, count);
        let rest = lemma_buckets(config, measures, estimates, at + 1, at, left, count);
        let starts = seq![first] + rest.0;
        let waits = seq![waited] + rest.1;
        assert forall|k: int| 0 <= k < starts.len() - 1 implies (if k == 0 {
            at
        } else {
            starts[k] + 1
        }) <= #[trigger] starts[k + 1] && measures.says_exceeds(
            estimates[starts[k]],
            estimates[starts[k + 1]],
            config.ttft_bucket_size_ms,
            true,
        ) && measures.says_unlock(
            waits[k],
            estimates[starts[k]],
            estimates[starts[k + 1]],
            config.next_bucket_unlock_factor,
            Some(waits[k + 1]),
        ) by {
            if k > 0 {
                assert(starts[k] == rest.0[k - 1]);
                assert(starts[k + 1] == rest.0[(k - 1) + 1]);
                assert(waits[k] == rest.1[k - 1]);
                assert(waits[k + 1] == rest.1[(k - 1) + 1]);
            }
        }
        assert forall|k: int, i: int|
            #![trigger starts[k], estimates[i]]
            0 <= k < starts.len() && at <= i && starts[k] < i < (if k + 1 < starts.len() {
                starts[k + 1]
            } else {
                count
            }) implies measures.says_exceeds(
            estimates[starts[k]],
            estimates[i],
            config.ttft_bucket_size_ms,
            false,
        ) by {
            if k > 0 {
                assert(starts[k] == rest.0[k - 1]);
                if k + 1 < starts.len() {
                    assert(starts[k + 1] == rest.0[(k - 1) + 1]);
                }
                lemma_starts_rise(rest.0, at + 1, k - 1);
            }
        }
        assert(starts.last() == rest.0.last());
        assert(waits.last() == rest.1.last());
        (starts, waits)
    }
}

proof fn lemma_later_starts(starts: Seq<int>, at: int, k: int)
    requires
        0 < k < starts.len(),
        forall|k: int|
            0 <= k < starts.len() - 1 ==> (if k == 0 {
                at
            } else {
                starts[k] + 1
            }) <= #[trigger] starts[k + 1],
    ensures
        starts[k] >= at,
    decreases k,
{
    assert(starts[(k - 1) + 1] == starts[k]);
    if k > 1 {
        lemma_later_starts(starts, at, k - 1);
    }
}

proof fn lemma_starts_stay(starts: Seq<int>, count: int, k: int)
    requires
        0 <= k < starts.len(),
        starts.last() < count,
        forall|k: int| 0 <= k < starts.len() - 1 ==> starts[k] < #[trigger] starts[k + 1],
    ensures
        starts[k] < count,
    decreases starts.len() - k,
{
    if k < starts.len() - 1 {
        assert(starts[k] < starts[k + 1]);
        lemma_starts_stay(starts, count, k + 1);
    }
}

proof fn lemma_starts_rise(starts: Seq<int>, at: int, k: int)
    requires
        0 <= k < starts.len(),
        starts[0] == at - 1,
        forall|k: int|
            0 <= k < starts.len() - 1 ==> (if k == 0 {
                at
            } else {
                starts[k] + 1
            }) <= #[trigger] starts[k + 1],
    ensures
        starts[k] >= at - 1,
{
    if k > 0 {
        lemma_later_starts(starts, at, k);
    }
}

/// Buckets are opened one behind the other, and each is paid for out of what the one before it left
/// of the wait. Given are where the buckets start that are open, and what is left of the wait in
/// each: in the first all of it, in every other what is left once the gap to its start is paid for.
/// Whatever else is open lies within the bucket that it stands in. The first that is not open, if
/// its estimate is finite, lies beyond the last bucket, and what is left does not pay for it.
pub proof fn buckets_are_paid_for_out_of_one_wait<
    E: Fn(Score, Score, u64) -> bool,
    U: Fn(Score, Score, Score, Score) -> Option<Score>,
    L: Fn(u64, u64) -> Score,
>(
    config: WaitAndWidenConfig,
    measures: Measures<E, U, L>,
    estimates: Seq<Score>,
    waited: Score,
    count: int,
) -> (buckets: (Seq<int>, Seq<Score>))
    requires
        estimates.len() > 0,
        can_open(config, measures, estimates, waited, count),
    ensures
        1 <= count <= estimates.len(),
        buckets.0.len() == buckets.1.len(),
        buckets.0.len() >= 1,
        buckets.0[0] == 0,
        buckets.1[0] == waited,
        buckets.0.last() < count,
        forall|k: int|
            0 <= k < buckets.0.len() - 1 ==> buckets.0[k] < #[trigger] buckets.0[k + 1]
                && measures.says_exceeds(
                estimates[buckets.0[k]],
                estimates[buckets.0[k + 1]],
                config.ttft_bucket_size_ms,
                true,
            ) && measures.says_unlock(
                buckets.1[k],
                estimates[buckets.0[k]],
                estimates[buckets.0[k + 1]],
                config.next_bucket_unlock_factor,
                Some(buckets.1[k + 1]),
            ),
        forall|k: int, i: int|
            #![trigger buckets.0[k], estimates[i]]
            0 <= k < buckets.0.len() && buckets.0[k] < i < (if k + 1 < buckets.0.len() {
                buckets.0[k + 1]
            } else {
                count
            }) ==> measures.says_exceeds(
                estimates[buckets.0[k]],
                estimates[i],
                config.ttft_bucket_size_ms,
                false,
            ),
        forall|i: int| 1 <= i < count ==> (#[trigger] estimates[i]).finite(),
        count < estimates.len() ==> !estimates[count].finite() || (measures.says_exceeds(
            estimates[buckets.0.last()],
            estimates[count],
            config.ttft_bucket_size_ms,
            true,
        ) && measures.says_unlock(
            buckets.1.last(),
            estimates[buckets.0.last()],
            estimates[count],
            config.next_bucket_unlock_factor,
            None,
        )),
{
    let buckets = lemma_buckets(config, measures, estimates, 1, 0, waited, count);
    assert forall|k: int| 0 <= k < buckets.0.len() - 1 implies buckets.0[k]
        < #[trigger] buckets.0[k + 1] by {}
    assert forall|k: int, i: int|
        #![trigger buckets.0[k], estimates[i]]
        0 <= k < buckets.0.len() && buckets.0[k] < i < (if k + 1 < buckets.0.len() {
            buckets.0[k + 1]
        } else {
            count
        }) implies measures.says_exceeds(
        estimates[buckets.0[k]],
        estimates[i],
        config.ttft_bucket_size_ms,
        false,
    ) by {
        lemma_starts_rise(buckets.0, 1, k);
    }
    buckets
}

/// Whether the measures calculate with finite scores: the scores stand for numbers by `worth`, which
/// keeps their order, a gap is the difference of the numbers, opening a bucket costs `factor` for
/// every `unit` of its gap, and what is left is what there was without the cost. A number that is
/// not finite exceeds any bucket.
pub open spec fn calculates<
    E: Fn(Score, Score, u64) -> bool,
    U: Fn(Score, Score, Score, Score) -> Option<Score>,
    L: Fn(u64, u64) -> Score,
>(
    config: WaitAndWidenConfig,
    measures: Measures<E, U, L>,
    worth: spec_fn(Score) -> int,
    factor: int,
    unit: int,
) -> bool {
    &&& factor >= 0
    &&& unit > 0
    &&& forall|a: Score, b: Score|
        a.finite() && b.finite() && a.rank() <= b.rank() ==> #[trigger] worth(a)
            <= #[trigger] worth(b)
    &&& forall|from: Score, to: Score, answer: bool| #[trigger]
        measures.says_exceeds(from, to, config.ttft_bucket_size_ms, answer) && from.finite()
            ==> answer == (!to.finite() || worth(to) - worth(from) > config.ttft_bucket_size_ms)
    &&& forall|waited: Score, from: Score, to: Score, left: Option<Score>| #[trigger]
        measures.says_unlock(waited, from, to, config.next_bucket_unlock_factor, left)
            && from.finite() && to.finite() ==> {
            let cost = factor * (worth(to) - worth(from));
            match left {
                Some(left) => unit * worth(left) == unit * worth(waited) - cost && cost <= unit
                    * worth(waited),
                None => cost > unit * worth(waited),
            }
        }
}

proof fn lemma_paid<
    E: Fn(Score, Score, u64) -> bool,
    U: Fn(Score, Score, Score, Score) -> Option<Score>,
    L: Fn(u64, u64) -> Score,
>(
    config: WaitAndWidenConfig,
    measures: Measures<E, U, L>,
    worth: spec_fn(Score) -> int,
    factor: int,
    unit: int,
    estimates: Seq<Score>,
    starts: Seq<int>,
    waits: Seq<Score>,
    k: int,
)
    requires
        calculates(config, measures, worth, factor, unit),
        0 <= k < starts.len() == waits.len(),
        forall|k: int|
            0 <= k < starts.len() ==> estimates[#[trigger] starts[k]].finite(),
        forall|k: int|
            0 <= k < starts.len() - 1 ==> measures.says_unlock(
                waits[k],
                estimates[starts[k]],
                estimates[#[trigger] starts[k + 1]],
                config.next_bucket_unlock_factor,
                Some(waits[k + 1]),
            ),
    ensures
        unit * worth(waits[k]) == unit * worth(waits[0]) - factor * (worth(estimates[starts[k]])
            - worth(estimates[starts[0]])),
        k > 0 ==> unit * worth(waits[k]) >= 0,
    decreases k,
{
    if k == 0 {
        assert(factor * (worth(estimates[starts[0]]) - worth(estimates[starts[0]])) == 0)
            by (nonlinear_arith);
    } else {
        lemma_paid(
            config,
            measures,
            worth,
            factor,
            unit,
            estimates,
            starts,
            waits,
            k - 1,
        );
        assert(measures.says_unlock(
            waits[k - 1],
            estimates[starts[k - 1]],
            estimates[starts[(k - 1) + 1]],
            config.next_bucket_unlock_factor,
            Some(waits[(k - 1) + 1]),
        ));
        let a = worth(estimates[starts[0]]);
        let b = worth(estimates[starts[k - 1]]);
        let c = worth(estimates[starts[k]]);
        assert(factor * (b - a) + factor * (c - b) == factor * (c - a)) by (nonlinear_arith);
    }
}

proof fn lemma_bucket_of(starts: Seq<int>, count: int, i: int) -> (k: int)
    requires
        starts.len() > 0,
        starts[0] == 0,
        0 <= i < count,
        forall|k: int| 0 <= k < starts.len() - 1 ==> starts[k] < #[trigger] starts[k + 1],
    ensures
        0 <= k < starts.len(),
        starts[k] <= i,
        k + 1 < starts.len() ==> i < starts[k + 1],
    decreases starts.len(),
{
    if starts.last() <= i {
        starts.len() - 1
    } else {
        let shorter = starts.drop_last();
        assert forall|k: int| 0 <= k < shorter.len() - 1 implies shorter[k]
            < #[trigger] shorter[k + 1] by {
            assert(starts[k] < starts[k + 1]);
        }
        let k = lemma_bucket_of(shorter, count, i);
        if k + 1 < shorter.len() {
            assert(shorter[k + 1] == starts[k + 1]);
        }
        k
    }
}

/// The wait is spent once. All buckets that are open together cost no more than the request has
/// waited, so an open estimate lies no further behind the first than the wait pays for and one
/// bucket more. And as much is open as the wait pays for: a finite estimate that is not open lies
/// further behind the first than that. This holds wherever the measures calculate.
pub proof fn the_wait_is_spent_once<
    E: Fn(Score, Score, u64) -> bool,
    U: Fn(Score, Score, Score, Score) -> Option<Score>,
    L: Fn(u64, u64) -> Score,
>(
    config: WaitAndWidenConfig,
    measures: Measures<E, U, L>,
    worth: spec_fn(Score) -> int,
    factor: int,
    unit: int,
    estimates: Seq<Score>,
    waited: Score,
    count: int,
    i: int,
)
    requires
        calculates(config, measures, worth, factor, unit),
        estimates.len() > 0,
        estimates[0].finite(),
        can_open(config, measures, estimates, waited, count),
        0 <= i < estimates.len(),
        worth(waited) >= 0,
    ensures
        1 <= count <= estimates.len(),
        i < count ==> factor * (worth(estimates[i]) - worth(estimates[0])) <= unit * worth(waited)
            + factor * config.ttft_bucket_size_ms,
        i == count && estimates[count].finite() ==> factor * (worth(estimates[count]) - worth(
            estimates[0],
        )) > unit * worth(waited),
{
    let buckets = buckets_are_paid_for_out_of_one_wait(
        config,
        measures,
        estimates,
        waited,
        count,
    );
    let starts = buckets.0;
    let waits = buckets.1;
    let size = config.ttft_bucket_size_ms as int;
    assert forall|k: int| 0 <= k < starts.len() implies estimates[#[trigger] starts[k]].finite() by {
        lemma_starts_rise(starts, 1, k);
        lemma_starts_stay(starts, count, k);
    }
    assert(unit * worth(waited) >= 0) by (nonlinear_arith)
        requires
            unit > 0,
            worth(waited) >= 0,
    ;
    if i < count {
        let k = lemma_bucket_of(starts, count, i);
        lemma_paid(config, measures, worth, factor, unit, estimates, starts, waits, k);
        if starts[k] < i {
            assert(measures.says_exceeds(
                estimates[starts[k]],
                estimates[i],
                config.ttft_bucket_size_ms,
                false,
            ));
        }
        let a = worth(estimates[0]);
        let b = worth(estimates[starts[k]]);
        let c = worth(estimates[i]);
        assert(c - b <= size);
        assert(factor * (c - a) <= factor * (b - a) + factor * size) by (nonlinear_arith)
            requires
                factor >= 0,
                c - b <= size,
        ;
    } else if i == count && estimates[count].finite() {
        let last = starts.len() - 1;
        lemma_paid(config, measures, worth, factor, unit, estimates, starts, waits, last);
        let a = worth(estimates[0]);
        let b = worth(estimates[starts[last]]);
        let c = worth(estimates[count]);
        assert(factor * (b - a) + factor * (c - b) == factor * (c - a)) by (nonlinear_arith);
    }
}

/// Whether the request may go to the cluster: it did not fail on it, and the queue is not longer than
/// the limit, if there is one.
pub open spec fn may_go_to(
    request: LoadBalancerRequest,
    limit: Option<Score>,
    candidate: RoutedClusterSnapshot,
) -> bool {
    &&& !failed_on(request, candidate)
    &&& limit is Some ==> candidate.scores.queue_ms.rank() <= limit->0.rank()
}

/// Whether the cluster can take another request: it states no limit on what it runs at once, or runs
/// and queues less than it may.
pub open spec fn takes_another(config: WaitAndWidenConfig, candidate: RoutedClusterSnapshot) -> bool {
    ||| candidate.stats.max_engine_concurrency == 0
    ||| candidate.stats.num_running_queries < candidate.stats.max_engine_concurrency
        + config.max_queued
}

proof fn lemma_may_go_to(
    request: LoadBalancerRequest,
    limit: Option<Score>,
    candidates: Seq<RoutedClusterSnapshot>,
    indices: Seq<usize>,
    k: int,
)
    requires
        valid_positions(indices, candidates.len() as int),
        0 <= k < candidates.len() <= usize::MAX,
    ensures
        admitted_indices(request, limit, candidates, indices).contains(k as usize)
            <==> indices.contains(k as usize) && may_go_to(request, limit, candidates[k]),
{
    lemma_admitted(request, limit, candidates, indices);
    failed_clusters_are_left_out(request, candidates[k], true);
    let possible = admitted_indices(request, limit, candidates, indices);
    if possible.contains(k as usize) {
        let at = choose|at: int| 0 <= at < possible.len() && possible[at] == k as usize;
        assert(admitted(request, limit, candidates[possible[at] as int]));
    }
    if indices.contains(k as usize) && may_go_to(request, limit, candidates[k]) {
        let at = choose|at: int| 0 <= at < indices.len() && indices[at] == k as usize;
        assert(possible.contains(indices[at]));
    }
}

proof fn lemma_range(
    config: WaitAndWidenConfig,
    candidates: Seq<RoutedClusterSnapshot>,
    indices: Seq<usize>,
)
    requires
        indices.len() > 0,
    ensures
        forall|i: int|
            0 <= i < indices.len() ==> fastest_ttft(config, candidates, indices).rank()
                <= config.ttft(candidates[#[trigger] indices[i] as int]).rank()
                <= slowest_ttft(config, candidates, indices).rank(),
        exists|i: int|
            0 <= i < indices.len() && fastest_ttft(config, candidates, indices) == config.ttft(
                candidates[#[trigger] indices[i] as int],
            ),
    decreases indices.len(),
{
    let last = indices.len() - 1;
    assert(indices[last] == indices.last());
    if indices.len() > 1 {
        let shorter = indices.drop_last();
        lemma_range(config, candidates, shorter);
        let at = choose|i: int|
            0 <= i < shorter.len() && fastest_ttft(config, candidates, shorter) == config.ttft(
                candidates[#[trigger] shorter[i] as int],
            );
        assert(indices[at] == shorter[at]);
        assert forall|i: int| 0 <= i < indices.len() implies fastest_ttft(
            config,
            candidates,
            indices,
        ).rank() <= config.ttft(candidates[#[trigger] indices[i] as int]).rank() <= slowest_ttft(
            config,
            candidates,
            indices,
        ).rank() by {
            if i < last {
                assert(shorter[i] == indices[i]);
            }
        }
    }
}

proof fn lemma_place(all: Seq<usize>, shuffled: Seq<usize>, k: usize) -> (place: int)
    requires
        shuffled.to_multiset() == all.to_multiset(),
        all.contains(k),
    ensures
        0 <= place < shuffled.len(),
        shuffled[place] == k,
{
    broadcast use vstd::seq_lib::group_to_multiset_ensures;

    assert(all.to_multiset().count(k) > 0);
    assert(shuffled.contains(k));
    choose|place: int| 0 <= place < shuffled.len() && shuffled[place] == k
}

/// The chosen cluster is one that the request may go to and that can take another request, and its
/// estimate lies no further behind any other that the request may go to than the wait pays for, and
/// one bucket more.
pub proof fn the_chosen_cluster_is_paid_for<
    E: Fn(Score, Score, u64) -> bool,
    U: Fn(Score, Score, Score, Score) -> Option<Score>,
    L: Fn(u64, u64) -> Score,
>(
    config: WaitAndWidenConfig,
    request: LoadBalancerRequest,
    measures: Measures<E, U, L>,
    worth: spec_fn(Score) -> int,
    factor: int,
    unit: int,
    limit: Option<Score>,
    candidates: Seq<RoutedClusterSnapshot>,
    indices: Seq<usize>,
    made: LoadBalancerCandidateChoice,
    k: int,
)
    requires
        config.wf(),
        calculates(config, measures, worth, factor, unit),
        worth(request.waited_ms) >= 0,
        candidates.len() <= usize::MAX,
        valid_positions(indices, candidates.len() as int),
        choice_within_limit(config, request, measures, limit, candidates, indices, Some(made)),
        0 <= k < candidates.len(),
        indices.contains(k as usize),
        may_go_to(request, limit, candidates[k]),
        config.ttft(candidates[k]).finite(),
    ensures
        made.candidate_index < candidates.len(),
        indices.contains(made.candidate_index),
        may_go_to(request, limit, candidates[made.candidate_index as int]),
        takes_another(config, candidates[made.candidate_index as int]),
        made.rank_depth == 1,
        config.ttft(candidates[made.candidate_index as int]).finite() ==> factor * (worth(
            config.ttft(candidates[made.candidate_index as int]),
        ) - worth(config.ttft(candidates[k]))) <= unit * worth(request.waited_ms) + factor
            * config.ttft_bucket_size_ms,
{
    let possible = admitted_indices(request, limit, candidates, indices);
    lemma_admitted(request, limit, candidates, indices);
    lemma_may_go_to(request, limit, candidates, indices, k);
    lemma_range(config, candidates, possible);
    let open = choose|open: Seq<usize>|
        #[trigger] are_open(config, request, measures, candidates, possible, open)
            && sampled_choice(
            config,
            candidates,
            with_capacity(config.max_queued, candidates, open),
            Some(made),
        );
    lemma_open(config, request, measures, candidates, possible, open);
    lemma_with_capacity(config.max_queued, candidates, open);
    let usable = with_capacity(config.max_queued, candidates, open);
    let sample = choose|sample: Seq<usize>|
        is_drawn_from(usable, config.sample_count as int, sample) && Some(made) == Some(
            chosen(#[trigger] first_least(candidates, config.compared_by(), sample) as int),
        );
    lemma_first_least(candidates, config.compared_by(), sample);
    lemma_drawn_are_given(usable, sample);
    let index = made.candidate_index;
    assert(usable.contains(index));
    assert(open.contains(index));
    assert(possible.contains(index));
    let at = choose|at: int| 0 <= at < possible.len() && possible[at] == index;
    assert(possible[at] < candidates.len());
    lemma_may_go_to(request, limit, candidates, indices, index as int);
    let own = config.ttft(candidates[index as int]);
    let other = config.ttft(candidates[k]);
    let fastest = fastest_ttft(config, candidates, possible);
    let slowest = slowest_ttft(config, candidates, possible);
    let place = choose|place: int| 0 <= place < possible.len() && possible[place] == k as usize;
    assert(fastest.rank() <= config.ttft(candidates[possible[place] as int]).rank());
    let size = config.ttft_bucket_size_ms as int;
    let wait = unit * worth(request.waited_ms);
    assert(wait >= 0) by (nonlinear_arith)
        requires
            unit > 0,
            worth(request.waited_ms) >= 0,
            wait == unit * worth(request.waited_ms),
    ;
    assert(worth(fastest) <= worth(other));
    if own.finite() {
        if measures.says_exceeds(fastest, slowest, config.ttft_bucket_size_ms, false) && open
            == possible {
            assert(config.ttft(candidates[possible[at] as int]).rank() <= slowest.rank());
            assert(slowest.finite());
            assert(worth(own) <= worth(slowest));
            let a = worth(own);
            let b = worth(other);
            assert(factor * (a - b) <= factor * size) by (nonlinear_arith)
                requires
                    factor >= 0,
                    a - b <= size,
            ;
        } else {
            let (sorted, count) = choose|sorted: Seq<usize>, count: int|
                {
                    &&& sorted.to_multiset() == possible.to_multiset()
                    &&& in_ttft_order(config, candidates, sorted)
                    &&& #[trigger] can_open(
                        config,
                        measures,
                        ttfts(config, candidates, sorted),
                        request.waited_ms,
                        count,
                    )
                    &&& open == #[trigger] sorted.take(count)
                };
            let estimates = ttfts(config, candidates, sorted);
            lemma_shuffled(possible, sorted, candidates.len() as int);
            let first = choose|i: int|
                0 <= i < possible.len() && fastest == config.ttft(
                    candidates[#[trigger] possible[i] as int],
                );
            let front = lemma_place(possible, sorted, possible[first]);
            let behind = lemma_place(possible, sorted, k as usize);
            assert(possible.contains(sorted[0]));
            if front > 0 {
                assert(not_slower(
                    config,
                    candidates[sorted[0] as int],
                    candidates[sorted[front] as int],
                ));
            }
            assert(estimates[0].rank() == fastest.rank());
            ranks_are_distinct(estimates[0], fastest);
            let buckets = buckets_are_paid_for_out_of_one_wait(
                config,
                measures,
                estimates,
                request.waited_ms,
                count,
            );
            let i = choose|i: int| 0 <= i < open.len() && open[i] == index;
            assert(sorted.take(count)[i] == sorted[i]);
            assert(estimates[i] == own);
            the_wait_is_spent_once(
                config,
                measures,
                worth,
                factor,
                unit,
                estimates,
                request.waited_ms,
                count,
                i,
            );
            let a = worth(own);
            let b = worth(other);
            let c = worth(fastest);
            assert(factor * (a - b) <= factor * (a - c)) by (nonlinear_arith)
                requires
                    factor >= 0,
                    c <= b,
            ;
        }
    }
}

/// A cluster of the first bucket that can take another request is not passed over for nothing: where
/// the request may go to one, a cluster is chosen.
pub proof fn some_cluster_is_chosen_if_the_first_bucket_has_room<
    E: Fn(Score, Score, u64) -> bool,
    U: Fn(Score, Score, Score, Score) -> Option<Score>,
    L: Fn(u64, u64) -> Score,
>(
    config: WaitAndWidenConfig,
    request: LoadBalancerRequest,
    measures: Measures<E, U, L>,
    worth: spec_fn(Score) -> int,
    factor: int,
    unit: int,
    limit: Option<Score>,
    candidates: Seq<RoutedClusterSnapshot>,
    indices: Seq<usize>,
    choice: Option<LoadBalancerCandidateChoice>,
    k: int,
)
    requires
        config.wf(),
        calculates(config, measures, worth, factor, unit),
        candidates.len() <= usize::MAX,
        valid_positions(indices, candidates.len() as int),
        choice_within_limit(config, request, measures, limit, candidates, indices, choice),
        0 <= k < candidates.len(),
        indices.contains(k as usize),
        may_go_to(request, limit, candidates[k]),
        takes_another(config, candidates[k]),
        config.ttft(candidates[k]).finite(),
        forall|j: int|
            0 <= j < candidates.len() && may_go_to(request, limit, candidates[j]) ==> config.ttft(
                #[trigger] candidates[j],
            ).bits < SIGN_BIT && worth(config.ttft(candidates[k])) - worth(
                config.ttft(candidates[j]),
            ) <= config.ttft_bucket_size_ms,
    ensures
        choice is Some,
{
    let possible = admitted_indices(request, limit, candidates, indices);
    lemma_admitted(request, limit, candidates, indices);
    lemma_may_go_to(request, limit, candidates, indices, k);
    lemma_range(config, candidates, possible);
    let fastest = fastest_ttft(config, candidates, possible);
    let slowest = slowest_ttft(config, candidates, possible);
    let place = choose|place: int| 0 <= place < possible.len() && possible[place] == k as usize;
    assert(fastest.rank() <= config.ttft(candidates[possible[place] as int]).rank());
    let first = choose|i: int|
        0 <= i < possible.len() && fastest == config.ttft(
            candidates[#[trigger] possible[i] as int],
        );
    assert(possible.contains(possible[first]));
    lemma_may_go_to(request, limit, candidates, indices, possible[first] as int);
    assert(fastest.bits < SIGN_BIT);
    assert(fastest.finite());
    let open = choose|open: Seq<usize>|
        #[trigger] are_open(config, request, measures, candidates, possible, open)
            && sampled_choice(
            config,
            candidates,
            with_capacity(config.max_queued, candidates, open),
            choice,
        );
    lemma_open(config, request, measures, candidates, possible, open);
    lemma_with_capacity(config.max_queued, candidates, open);
    if open != possible {
        let (sorted, count) = choose|sorted: Seq<usize>, count: int|
            {
                &&& sorted.to_multiset() == possible.to_multiset()
                &&& in_ttft_order(config, candidates, sorted)
                &&& #[trigger] can_open(
                    config,
                    measures,
                    ttfts(config, candidates, sorted),
                    request.waited_ms,
                    count,
                )
                &&& open == #[trigger] sorted.take(count)
            };
        let estimates = ttfts(config, candidates, sorted);
        lemma_shuffled(possible, sorted, candidates.len() as int);
        let behind = lemma_place(possible, sorted, k as usize);
        assert forall|j: int| 0 <= j <= behind implies (#[trigger] estimates[j]).finite()
            && worth(estimates[j]) - worth(estimates[0]) <= config.ttft_bucket_size_ms by {
            assert(possible.contains(sorted[j]));
            assert(possible.contains(sorted[0]));
            lemma_may_go_to(request, limit, candidates, indices, sorted[j] as int);
            lemma_may_go_to(request, limit, candidates, indices, sorted[0] as int);
            if j < behind {
                assert(not_slower(
                    config,
                    candidates[sorted[j] as int],
                    candidates[sorted[behind] as int],
                ));
            }
            assert(estimates[j].bits < SIGN_BIT);
            assert(worth(estimates[j]) <= worth(config.ttft(candidates[k])));
        }
        assert(estimates[0].finite());
        first_bucket_is_open_at_once(
            config,
            measures,
            estimates,
            request.waited_ms,
            count,
            behind + 1,
        );
        assert(open[behind] == k as usize);
    }
    assert(open.contains(k as usize));
    let at = choose|at: int| 0 <= at < open.len() && open[at] == k as usize;
    assert(with_capacity(config.max_queued, candidates, open).contains(open[at]));
}

/// A sample holds as many of the clusters as are asked for, or all where there are fewer; the chosen
/// one is among them, and none of them is smaller by the signal, which is the queue delay where none
/// is written. So where all are sampled the chosen one is a smallest of all.
pub proof fn the_chosen_cluster_is_a_least_of_its_sample(
    config: WaitAndWidenConfig,
    candidates: Seq<RoutedClusterSnapshot>,
    usable: Seq<usize>,
    made: LoadBalancerCandidateChoice,
    signal: ClusterComparator,
    k: usize,
)
    requires
        config.wf(),
        usable.len() > 0,
        sampled_choice(config, candidates, usable, Some(made)),
        config.comparator == Some(signal) || (config.comparator is None && signal is QueueTime),
        usable.contains(k),
    ensures
        usable.contains(made.candidate_index),
        exists|sample: Seq<usize>|
            {
                &&& sample.len() == config.sample_count || (sample.len() == usable.len()
                    && usable.len() < config.sample_count)
                &&& (#[trigger] sample.to_multiset()).subset_of(usable.to_multiset())
                &&& sample.contains(made.candidate_index)
                &&& forall|i: int|
                    0 <= i < sample.len() ==> signal.key(candidates[made.candidate_index as int])
                        <= signal.key(candidates[#[trigger] sample[i] as int])
            },
        config.sample_count >= usable.len() ==> signal.key(
            candidates[made.candidate_index as int],
        ) <= signal.key(candidates[k as int]),
{
    broadcast use vstd::multiset::group_multiset_axioms;
    broadcast use vstd::multiset::group_multiset_properties;
    broadcast use vstd::seq_lib::group_to_multiset_ensures;

    let sample = choose|sample: Seq<usize>|
        is_drawn_from(usable, config.sample_count as int, sample) && Some(made) == Some(
            chosen(#[trigger] first_least(candidates, config.compared_by(), sample) as int),
        );
    lemma_first_least(candidates, config.compared_by(), sample);
    lemma_drawn_are_given(usable, sample);
    assert(sample.contains(made.candidate_index));
    if config.sample_count >= usable.len() {
        let drawn = sample.to_multiset();
        let given = usable.to_multiset();
        assert(drawn.len() == given.len());
        let rest = given.sub(drawn);
        assert(rest.add(drawn) =~= given);
        assert(rest.len() + drawn.len() == given.len());
        assert(rest =~= Multiset::empty());
        assert(drawn =~= given);
        let place = lemma_place(usable, sample, k);
        assert(sample[place] == k);
    }
}

/// Of equal clusters in a sample the first is taken.
pub proof fn the_first_of_equals_is_taken(
    candidates: Seq<RoutedClusterSnapshot>,
    comparator: ClusterComparator,
    sample: Seq<usize>,
) -> (at: int)
    requires
        sample.len() > 0,
    ensures
        0 <= at < sample.len(),
        first_least(candidates, comparator, sample) == sample[at],
        forall|i: int|
            0 <= i < at ==> comparator.key(candidates[#[trigger] sample[i] as int])
                > comparator.key(candidates[sample[at] as int]),
        forall|i: int|
            at <= i < sample.len() ==> comparator.key(candidates[#[trigger] sample[i] as int])
                >= comparator.key(candidates[sample[at] as int]),
    decreases sample.len(),
{
    assert(sample[sample.len() - 1] == sample.last());
    if sample.len() == 1 {
        0
    } else {
        let shorter = sample.drop_last();
        let before = the_first_of_equals_is_taken(candidates, comparator, shorter);
        assert forall|i: int| 0 <= i < shorter.len() implies #[trigger] sample[i] == shorter[i] by {}
        if first_least(candidates, comparator, sample) == sample.last() && comparator.key(
            candidates[sample.last() as int],
        ) < comparator.key(candidates[shorter[before] as int]) {
            sample.len() - 1
        } else {
            before
        }
    }
}

/// Clusters that hold the prefix of a request in their caches come first: another is chosen only
/// where none of them can be. Without such clusters the choice is among all.
pub proof fn cached_prefixes_come_first<
    E: Fn(Score, Score, u64) -> bool,
    U: Fn(Score, Score, Score, Score) -> Option<Score>,
    L: Fn(u64, u64) -> Score,
>(
    config: WaitAndWidenConfig,
    request: LoadBalancerRequest,
    measures: Measures<E, U, L>,
    candidates: Seq<RoutedClusterSnapshot>,
    affinity: Option<Seq<usize>>,
    choice: Option<LoadBalancerCandidateChoice>,
    all: Seq<usize>,
)
    requires
        config.wf(),
        candidates.len() <= usize::MAX,
        wait_and_widen_choice(config, request, measures, candidates, affinity, choice),
        affinity is Some ==> valid_positions(affinity->0, candidates.len() as int),
        all.len() == candidates.len(),
        forall|i: int| 0 <= i < all.len() ==> #[trigger] all[i] == i,
    ensures
        affinity is None || affinity->0.len() == 0 ==> choice_among(
            config,
            request,
            measures,
            candidates,
            all,
            choice,
        ),
        affinity is Some && affinity->0.len() > 0 && (choice is None || !affinity->0.contains(
            choice->0.candidate_index,
        )) ==> choice_among(config, request, measures, candidates, affinity->0, None)
            && choice_among(config, request, measures, candidates, all, choice),
{
    assert(all =~= all_positions(candidates.len()));
    if affinity is Some && affinity->0.len() > 0 && choice is Some && choice_among(
        config,
        request,
        measures,
        candidates,
        affinity->0,
        choice,
    ) {
        wait_and_widen_chooses_a_usable_cluster(
            config,
            request,
            measures,
            candidates,
            affinity->0,
            choice,
        );
    }
}

} // verus!
