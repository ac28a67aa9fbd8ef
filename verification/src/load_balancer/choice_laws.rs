//! What holds of the choice between clusters, said of the clusters and requests themselves.

use super::comparator::{ClusterComparator, ClusterComparatorTrace};
use super::config::LoadBalancerRequestPolicy;
use super::power_of_n::{distinct_pair, PowerOfNLoadBalancer};
use super::pulsar::{
    cache_room, choose_by_rank, lacks_room_only, may_follow, ranking_is_followed,
};
use super::request::{
    eligible_candidates, eligible_indices, lemma_eligible_indices, LoadBalancerCandidateChoice,
    LoadBalancerRequest, RoutedClusterSnapshot,
};
use super::score::{Order, Score};
use super::wait_and_widen::{can_shuffle, has_capacity, swapped, WaitAndWidenConfig};
use vstd::prelude::*;

verus! {

/// Whether the cluster is one of those that the request failed on.
pub open spec fn failed_on(request: LoadBalancerRequest, candidate: RoutedClusterSnapshot) -> bool {
    exists|i: int|
        0 <= i < request.excluded_cluster_ids@.len() && (
        #[trigger] request.excluded_cluster_ids@[i])@ == candidate.cluster_id@
}

/// A request leaves out the clusters that it failed on, and no others.
pub proof fn failed_clusters_are_left_out(
    request: LoadBalancerRequest,
    candidate: RoutedClusterSnapshot,
    excluded: bool,
)
    ensures
        request.excludes(candidate.cluster_id@) == failed_on(request, candidate),
        call_ensures(
            LoadBalancerRequest::excludes_cluster,
            (&request, &candidate.cluster_id),
            excluded,
        ) ==> excluded == failed_on(request, candidate),
{
    let all = crate::text::texts(request.excluded_cluster_ids@);
    if all.contains(candidate.cluster_id@) {
        let i = choose|i: int| 0 <= i < all.len() && all[i] == candidate.cluster_id@;
        assert(request.excluded_cluster_ids@[i]@ == candidate.cluster_id@);
    }
    if failed_on(request, candidate) {
        let i = choose|i: int|
            0 <= i < request.excluded_cluster_ids@.len() && (
            #[trigger] request.excluded_cluster_ids@[i])@ == candidate.cluster_id@;
        assert(all[i] == candidate.cluster_id@);
    }
}

/// The clusters that a request may still go to are those it has not failed on. They are given by
/// their positions, each once, in the order of the candidates.
pub proof fn eligible_clusters_are_those_not_failed_on(
    request: LoadBalancerRequest,
    candidates: Vec<RoutedClusterSnapshot>,
    indices: Vec<usize>,
    k: usize,
)
    requires
        candidates@.len() <= usize::MAX,
        call_ensures(eligible_candidates, (&request, &candidates), indices),
    ensures
        indices@.contains(k) <==> k < candidates@.len() && !failed_on(
            request,
            candidates@[k as int],
        ),
        forall|i: int, j: int|
            0 <= i < j < indices@.len() ==> #[trigger] indices@[i] < #[trigger] indices@[j],
{
    let count = candidates@.len() as int;
    lemma_eligible_indices(request, candidates@, count);
    let eligible = eligible_indices(request, candidates@, count);
    assert(indices@ == eligible);
    if k < candidates@.len() {
        failed_clusters_are_left_out(request, candidates@[k as int], true);
    }
    if eligible.contains(k) {
        let i = choose|i: int| 0 <= i < eligible.len() && eligible[i] == k;
        assert(eligible[i] < count);
    }
}

/// A signal prefers the cluster with the smaller number, and reads no other number of the two.
pub proof fn clusters_compare_by_their_signal(
    comparator: ClusterComparator,
    a: RoutedClusterSnapshot,
    b: RoutedClusterSnapshot,
    order: Order,
    by_score: Order,
)
    requires
        call_ensures(ClusterComparator::compare, (comparator, &a, &b), order),
    ensures
        comparator is EstimatedTtft && call_ensures(
            Score::compare,
            (a.scores.ttft_ms, b.scores.ttft_ms),
            by_score,
        ) ==> order == by_score,
        comparator is QueueTime && call_ensures(
            Score::compare,
            (a.scores.queue_ms, b.scores.queue_ms),
            by_score,
        ) ==> order == by_score,
        comparator is InputWorkSeconds && call_ensures(
            Score::compare,
            (a.scores.input_work_seconds, b.scores.input_work_seconds),
            by_score,
        ) ==> order == by_score,
        comparator is Utilization && call_ensures(
            Score::compare,
            (a.scores.utilization, b.scores.utilization),
            by_score,
        ) ==> order == by_score,
        comparator is NumRequestsQueued ==> {
            &&& order is Less <==> a.stats.queue_size < b.stats.queue_size
            &&& order is Equal <==> a.stats.queue_size == b.stats.queue_size
        },
{
}

/// Numbers below 0 come before those above; among numbers above 0 larger bits are larger, among
/// those below 0 smaller. Only equal bits compare as equal.
pub proof fn scores_compare_as_numbers(a: Score, b: Score, order: Order)
    requires
        call_ensures(Score::compare, (a, b), order),
    ensures
        order is Equal <==> a.bits == b.bits,
        a.bits < 0x8000_0000_0000_0000 && b.bits < 0x8000_0000_0000_0000 ==> (order is Less
            <==> a.bits < b.bits),
        a.bits >= 0x8000_0000_0000_0000 && b.bits >= 0x8000_0000_0000_0000 ==> (order is Less
            <==> a.bits > b.bits),
        a.bits >= 0x8000_0000_0000_0000 && b.bits < 0x8000_0000_0000_0000 ==> order is Less,
        a.bits < 0x8000_0000_0000_0000 && b.bits >= 0x8000_0000_0000_0000 ==> order is Greater,
{
}

/// A number is finite if its exponent is not the largest there is; its sign makes no difference.
pub proof fn largest_exponents_are_not_finite(score: Score, finite: bool)
    requires
        call_ensures(Score::is_finite, (score,), finite),
    ensures
        finite <==> (score.bits as int / 0x10_0000_0000_0000) % 2048 != 2047,
{
}

/// What is shown of a comparison is the number by which the cluster was compared, and its parts
/// where the signal has parts: an estimate has three, a queue delay is one itself.
pub proof fn comparisons_show_what_was_compared(
    comparator: ClusterComparator,
    candidate: RoutedClusterSnapshot,
    trace: ClusterComparatorTrace,
    queued: Score,
)
    requires
        call_ensures(ClusterComparator::trace, (comparator, &candidate), trace),
        call_ensures(Score::of_count, (candidate.stats.queue_size,), queued),
    ensures
        trace.comparator == comparator,
        comparator is EstimatedTtft ==> trace.score == candidate.scores.ttft_ms && trace.queue_ms
            == Some(candidate.scores.queue_ms) && trace.prefill_ms == Some(
            candidate.scores.prefill_ms,
        ) && trace.rtt_ms == Some(candidate.scores.rtt_ms),
        comparator is QueueTime ==> trace.score == candidate.scores.queue_ms && trace.queue_ms
            == Some(trace.score),
        comparator is InputWorkSeconds ==> trace.score == candidate.scores.input_work_seconds,
        comparator is Utilization ==> trace.score == candidate.scores.utilization,
        comparator is NumRequestsQueued ==> trace.score == queued,
        !(comparator is EstimatedTtft) ==> trace.prefill_ms is None && trace.rtt_ms is None,
        !(comparator is EstimatedTtft || comparator is QueueTime) ==> trace.queue_ms is None,
{
}

/// Whether a ranking may be followed to the cluster.
pub open spec fn usable(
    policy: LoadBalancerRequestPolicy,
    request: LoadBalancerRequest,
    candidate: RoutedClusterSnapshot,
) -> bool {
    &&& !failed_on(request, candidate)
    &&& policy.consider_kv_free_tokens ==> {
        &&& request.input_tokens is Some
        &&& candidate.stats.kv_cache_capacity_tokens > 0
        &&& request.input_tokens->0 <= candidate.stats.kv_cache_free_tokens
    }
}

/// The first usable cluster of a ranking is chosen, and its depth is its place, counted from 1. One
/// above it that the request did not fail on was passed over for want of room in its cache.
pub proof fn the_first_usable_cluster_is_chosen(
    policy: LoadBalancerRequestPolicy,
    request: LoadBalancerRequest,
    candidates: Vec<RoutedClusterSnapshot>,
    ranking: Vec<usize>,
    choice: Option<LoadBalancerCandidateChoice>,
)
    requires
        ranking@.len() <= usize::MAX,
        call_ensures(choose_by_rank, (&policy, &request, &candidates, &ranking), choice),
    ensures
        choice is None <==> forall|i: int|
            0 <= i < ranking@.len() ==> !usable(
                policy,
                request,
                candidates@[(#[trigger] ranking@[i]) as int],
            ),
        choice matches Some(made) ==> {
            &&& 1 <= made.rank_depth <= ranking@.len()
            &&& ranking@[made.rank_depth - 1] == made.candidate_index
            &&& usable(policy, request, candidates@[made.candidate_index as int])
            &&& forall|i: int|
                0 <= i < made.rank_depth - 1 ==> !usable(
                    policy,
                    request,
                    candidates@[(#[trigger] ranking@[i]) as int],
                )
            &&& made.selected_after_kv_free_tokens_skip <==> exists|i: int|
                0 <= i < made.rank_depth - 1 && !failed_on(
                    request,
                    candidates@[(#[trigger] ranking@[i]) as int],
                )
        },
{
    ranking_is_followed(policy, request, candidates@, ranking@);
    assert forall|i: int| 0 <= i < ranking@.len() implies request.excludes(
        candidates@[(#[trigger] ranking@[i]) as int].cluster_id@,
    ) == failed_on(request, candidates@[ranking@[i] as int]) by {
        failed_clusters_are_left_out(request, candidates@[ranking@[i] as int], true);
    }
    if choice is Some {
        let made = choice->0;
        assert(ranking@[made.rank_depth - 1] == made.candidate_index);
        if made.selected_after_kv_free_tokens_skip {
            let i = choose|i: int|
                0 <= i < made.rank_depth - 1 && lacks_room_only(
                    policy,
                    request,
                    candidates@[(#[trigger] ranking@[i]) as int],
                );
            assert(!failed_on(request, candidates@[ranking@[i] as int]));
        }
        assert forall|i: int|
            0 <= i < made.rank_depth - 1 && !failed_on(
                request,
                candidates@[(#[trigger] ranking@[i]) as int],
            ) implies lacks_room_only(policy, request, candidates@[ranking@[i] as int]) by {
            assert(!may_follow(policy, request, candidates@[ranking@[i] as int]));
        }
    } else {
        assert forall|i: int| 0 <= i < ranking@.len() implies !usable(
            policy,
            request,
            candidates@[(#[trigger] ranking@[i]) as int],
        ) by {}
    }
}

/// A cluster has room in its cache for a request whose length is known and not above what is free;
/// one that states no capacity has none.
pub proof fn cache_room_is_for_the_whole_request(
    request: LoadBalancerRequest,
    candidate: RoutedClusterSnapshot,
    room: bool,
)
    requires
        call_ensures(cache_room, (&request, &candidate), room),
    ensures
        room ==> candidate.stats.kv_cache_capacity_tokens > 0,
        request.input_tokens is None ==> !room,
        request.input_tokens is Some && candidate.stats.kv_cache_capacity_tokens > 0 ==> (room
            <==> request.input_tokens->0 <= candidate.stats.kv_cache_free_tokens),
{
}

/// A cluster that states how many requests it runs at once takes that many and `max_queued` more;
/// one that states nothing takes any number.
pub proof fn capacity_is_what_runs_and_what_may_wait(
    candidate: RoutedClusterSnapshot,
    max_queued: u64,
    capacity: bool,
)
    requires
        call_ensures(has_capacity, (&candidate, max_queued), capacity),
    ensures
        candidate.stats.max_engine_concurrency == 0 ==> capacity,
        candidate.stats.max_engine_concurrency > 0 ==> (capacity
            <==> candidate.stats.num_running_queries + 1 <= candidate.stats.max_engine_concurrency
            + max_queued),
{
}

/// What an estimate leaves out is what the configuration ignores: the queue delay, the prefill
/// time, or both, which leaves the round trip.
pub proof fn estimates_leave_out_what_is_ignored(
    config: WaitAndWidenConfig,
    candidate: RoutedClusterSnapshot,
    ttft: Score,
)
    requires
        call_ensures(WaitAndWidenConfig::bucket_ttft, (&config, &candidate), ttft),
    ensures
        !config.ignore_queue_time && !config.ignore_input_processing_time ==> ttft
            == candidate.scores.ttft_ms,
        config.ignore_queue_time && !config.ignore_input_processing_time ==> ttft
            == candidate.scores.ttft_without_queue_ms,
        !config.ignore_queue_time && config.ignore_input_processing_time ==> ttft
            == candidate.scores.ttft_without_prefill_ms,
        config.ignore_queue_time && config.ignore_input_processing_time ==> ttft
            == candidate.scores.rtt_ms,
{
}

/// Two draws, the second from one number less, make a pair of different numbers, and every such
/// pair comes from two draws.
pub proof fn pairs_are_of_different_numbers(
    first: usize,
    second: usize,
    length: usize,
    pair: (usize, usize),
)
    requires
        first < length,
        second + 1 < length,
        call_ensures(distinct_pair, (first, second), pair),
    ensures
        pair.0 == first,
        pair.1 != first,
        pair.1 < length,
        second < first ==> pair.1 == second,
        second >= first ==> pair.1 == second + 1,
{
}

/// A sample is of as many clusters as are configured, or of all that the request did not fail on where
/// there are fewer.
pub proof fn samples_are_as_large_as_they_can_be(
    balancer: PowerOfNLoadBalancer,
    request: LoadBalancerRequest,
    candidates: Vec<RoutedClusterSnapshot>,
    indices: Vec<usize>,
    size: usize,
    any: bool,
)
    requires
        candidates@.len() <= usize::MAX,
        call_ensures(eligible_candidates, (&request, &candidates), indices),
        call_ensures(
            PowerOfNLoadBalancer::effective_sample_count,
            (&balancer, &request, &candidates),
            size,
        ),
        call_ensures(LoadBalancerRequest::has_excluded_clusters, (&request,), any),
    ensures
        size <= balancer.sample_count,
        size <= indices@.len(),
        size == balancer.sample_count || size == indices@.len(),
        any <==> request.excluded_cluster_ids@.len() > 0,
        !any ==> indices@.len() == candidates@.len(),
{
    lemma_eligible_indices(request, candidates@, candidates@.len() as int);
}

/// A choice that follows no ranking stands at the top of it, and passed over nothing.
pub proof fn choices_without_a_ranking_are_at_the_top(
    candidate_index: usize,
    choice: LoadBalancerCandidateChoice,
)
    requires
        call_ensures(
            LoadBalancerCandidateChoice::with_rank_depth_1,
            (candidate_index,),
            choice,
        ),
    ensures
        choice.candidate_index == candidate_index,
        choice.rank_depth == 1,
        !choice.selected_after_kv_free_tokens_skip,
{
}

proof fn lemma_front_stays(items: Seq<usize>, draws: Seq<usize>, count: int, i: int)
    requires
        can_shuffle(items.len() as int, draws),
        0 <= i < count <= draws.len(),
    ensures
        swapped(items, draws.take(count)).len() == items.len(),
        swapped(items, draws.take(count))[i] == swapped(items, draws.take(i))[draws[i] as int],
        swapped(items, draws.take(i)).len() == items.len(),
    decreases count,
{
    let front = draws.take(count);
    assert(front.drop_last() =~= draws.take(count - 1));
    assert(front.last() == draws[count - 1]);
    lemma_length_stays(items, draws, i);
    lemma_length_stays(items, draws, count - 1);
    if i < count - 1 {
        lemma_front_stays(items, draws, count - 1, i);
    }
}

proof fn lemma_length_stays(items: Seq<usize>, draws: Seq<usize>, count: int)
    requires
        can_shuffle(items.len() as int, draws),
        0 <= count <= draws.len(),
    ensures
        swapped(items, draws.take(count)).len() == items.len(),
    decreases count,
{
    if count > 0 {
        assert(draws.take(count).drop_last() =~= draws.take(count - 1));
        lemma_length_stays(items, draws, count - 1);
    }
}

/// Items are drawn one after the other, each from what is left: what comes to stand at a place is what
/// stood, when it was drawn, at the place that was drawn for it, and it stays there.
pub proof fn drawn_items_come_to_the_front(items: Seq<usize>, draws: Seq<usize>, i: int)
    requires
        can_shuffle(items.len() as int, draws),
        0 <= i < draws.len(),
    ensures
        swapped(items, draws)[i] == swapped(items, draws.take(i))[draws[i] as int],
        i == 0 ==> swapped(items, draws)[0] == items[draws[0] as int],
{
    assert(draws.take(draws.len() as int) =~= draws);
    lemma_front_stays(items, draws, draws.len() as int, i);
    assert(draws.take(0) =~= Seq::empty());
}

} // verus!
