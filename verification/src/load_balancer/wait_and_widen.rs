//! `wait-and-widen`: clusters with close estimates of time to first token form buckets; the first
//! bucket is open at once, later ones once a request has waited long enough.

use super::comparator::ClusterComparator;
use super::measures::Measures;
use super::random::{new_rng, random_index, random_ratio, sample_size};
use super::request::{
    chosen, LoadBalancerCandidateChoice, LoadBalancerRequest, RoutedClusterSnapshot,
};
use super::score::{Order, Score};
use crate::text::{text_at_most, text_le, text_order_is_total, text_order_is_transitive};
use rand::rngs::StdRng;
use vstd::prelude::*;

verus! {

/// How `wait-and-widen` chooses.
#[derive(Clone, Debug)]
pub struct WaitAndWidenConfig {
    /// What sampled clusters are compared by; without it, the least queue time counts.
    pub comparator: Option<ClusterComparator>,
    pub seed: Option<String>,
    pub cache_affinity_virtual_nodes: usize,
    pub cache_affinity_backend_selection_count: Option<usize>,
    /// The bounds between which the longest accepted queue time lies, in milliseconds.
    pub queue_slo: Option<(u64, u64)>,
    pub ttft_bucket_size_ms: u64,
    pub next_bucket_unlock_factor: Score,
    pub sample_count: usize,
    pub max_queued: u64,
    pub ignore_queue_time: bool,
    pub ignore_input_processing_time: bool,
}

impl WaitAndWidenConfig {
    /// At least one cluster is sampled.
    pub open spec fn wf(&self) -> bool {
        self.sample_count >= 1
    }

    /// What sampled clusters are compared by.
    pub open spec fn compared_by(&self) -> ClusterComparator {
        match self.comparator {
            Some(comparator) => comparator,
            None => ClusterComparator::QueueTime,
        }
    }

    /// What sampled clusters are compared by.
    pub fn compare_by(&self) -> (comparator: ClusterComparator)
        ensures
            comparator == self.compared_by(),
    {
        match self.comparator {
            Some(comparator) => comparator,
            None => ClusterComparator::QueueTime,
        }
    }

    /// The estimate by which a cluster falls into a bucket.
    pub open spec fn ttft(&self, candidate: RoutedClusterSnapshot) -> Score {
        if self.ignore_queue_time {
            if self.ignore_input_processing_time {
                candidate.scores.rtt_ms
            } else {
                candidate.scores.ttft_without_queue_ms
            }
        } else if self.ignore_input_processing_time {
            candidate.scores.ttft_without_prefill_ms
        } else {
            candidate.scores.ttft_ms
        }
    }

    /// The estimate by which a cluster falls into a bucket.
    pub fn bucket_ttft(&self, candidate: &RoutedClusterSnapshot) -> (ttft: Score)
        ensures
            ttft == self.ttft(*candidate),
    {
        if self.ignore_queue_time {
            if self.ignore_input_processing_time {
                candidate.scores.rtt_ms
            } else {
                candidate.scores.ttft_without_queue_ms
            }
        } else if self.ignore_input_processing_time {
            candidate.scores.ttft_without_prefill_ms
        } else {
            candidate.scores.ttft_ms
        }
    }
}

/// Whether a cluster can take another request: fewer run on it than its concurrency and the
/// queue allowed beyond it. A reported concurrency of 0 sets no limit.
pub open spec fn capacity_left(candidate: RoutedClusterSnapshot, max_queued: u64) -> bool {
    candidate.stats.max_engine_concurrency == 0 || candidate.stats.num_running_queries
        < candidate.stats.max_engine_concurrency + max_queued
}

/// Whether a cluster can take another request.
pub fn has_capacity(candidate: &RoutedClusterSnapshot, max_queued: u64) -> (capacity: bool)
    ensures
        capacity == capacity_left(*candidate, max_queued),
{
    candidate.stats.max_engine_concurrency == 0 || (candidate.stats.num_running_queries as u128)
        < candidate.stats.max_engine_concurrency as u128 + max_queued as u128
}

/// Whether a request may go to a cluster: it did not fail on it, and its queue is not longer than
/// the request accepts.
pub open spec fn admitted(
    request: LoadBalancerRequest,
    limit: Option<Score>,
    candidate: RoutedClusterSnapshot,
) -> bool {
    &&& !request.excludes(candidate.cluster_id@)
    &&& limit matches Some(longest) ==> candidate.scores.queue_ms.rank() <= longest.rank()
}

/// Those of the given positions that a request may go to, in their order.
pub open spec fn admitted_indices(
    request: LoadBalancerRequest,
    limit: Option<Score>,
    candidates: Seq<RoutedClusterSnapshot>,
    indices: Seq<usize>,
) -> Seq<usize>
    decreases indices.len(),
{
    if indices.len() == 0 {
        Seq::empty()
    } else {
        let rest = admitted_indices(request, limit, candidates, indices.drop_last());
        if admitted(request, limit, candidates[indices.last() as int]) {
            rest.push(indices.last())
        } else {
            rest
        }
    }
}

/// Those of the given positions whose cluster can take another request, in their order.
pub open spec fn with_capacity(
    max_queued: u64,
    candidates: Seq<RoutedClusterSnapshot>,
    indices: Seq<usize>,
) -> Seq<usize>
    decreases indices.len(),
{
    if indices.len() == 0 {
        Seq::empty()
    } else {
        let rest = with_capacity(max_queued, candidates, indices.drop_last());
        if capacity_left(candidates[indices.last() as int], max_queued) {
            rest.push(indices.last())
        } else {
            rest
        }
    }
}

/// The smallest estimate among the given positions, of which there is at least one.
pub open spec fn fastest_ttft(
    config: WaitAndWidenConfig,
    candidates: Seq<RoutedClusterSnapshot>,
    indices: Seq<usize>,
) -> Score
    decreases indices.len(),
{
    let last = config.ttft(candidates[indices.last() as int]);
    if indices.len() <= 1 {
        last
    } else {
        let rest = fastest_ttft(config, candidates, indices.drop_last());
        if last.rank() < rest.rank() {
            last
        } else {
            rest
        }
    }
}

/// The largest estimate among the given positions, of which there is at least one.
pub open spec fn slowest_ttft(
    config: WaitAndWidenConfig,
    candidates: Seq<RoutedClusterSnapshot>,
    indices: Seq<usize>,
) -> Score
    decreases indices.len(),
{
    let last = config.ttft(candidates[indices.last() as int]);
    if indices.len() <= 1 {
        last
    } else {
        let rest = slowest_ttft(config, candidates, indices.drop_last());
        if last.rank() > rest.rank() {
            last
        } else {
            rest
        }
    }
}

/// Whether a cluster comes before another, or stands level with it: by estimate, then by name.
pub open spec fn not_slower(
    config: WaitAndWidenConfig,
    a: RoutedClusterSnapshot,
    b: RoutedClusterSnapshot,
) -> bool {
    config.ttft(a).rank() < config.ttft(b).rank() || (config.ttft(a).rank() == config.ttft(b).rank()
        && text_le(a.cluster_id@, b.cluster_id@))
}

/// Whether positions are in the order of their clusters.
pub open spec fn in_ttft_order(
    config: WaitAndWidenConfig,
    candidates: Seq<RoutedClusterSnapshot>,
    indices: Seq<usize>,
) -> bool {
    forall|i: int, j: int|
        #![trigger indices[i], indices[j]]
        0 <= i < j < indices.len() ==> not_slower(
            config,
            candidates[indices[i] as int],
            candidates[indices[j] as int],
        )
}

/// The estimates of the given positions.
pub open spec fn ttfts(
    config: WaitAndWidenConfig,
    candidates: Seq<RoutedClusterSnapshot>,
    indices: Seq<usize>,
) -> Seq<Score> {
    Seq::new(indices.len(), |i: int| config.ttft(candidates[indices[i] as int]))
}

/// Whether the walk over rising estimates can end with `count` of them open. It stands at `at`;
/// the bucket that it is in starts at `start`, and `waited` is left of the wait. An estimate
/// within the bucket is open. One beyond it starts the next bucket, if what is left of the wait
/// pays for the gap; else the walk ends. It ends, too, at an estimate that is not finite.
pub open spec fn walk_can_open<
    E: Fn(Score, Score, u64) -> bool,
    U: Fn(Score, Score, Score, Score) -> Option<Score>,
    L: Fn(u64, u64) -> Score,
>(
    config: WaitAndWidenConfig,
    measures: Measures<E, U, L>,
    estimates: Seq<Score>,
    at: int,
    start: Score,
    waited: Score,
    count: int,
) -> bool
    decreases estimates.len() - at,
{
    if at >= estimates.len() || !estimates[at].finite() {
        count == at
    } else {
        let estimate = estimates[at];
        ||| {
            &&& measures.says_exceeds(start, estimate, config.ttft_bucket_size_ms, false)
            &&& walk_can_open(config, measures, estimates, at + 1, start, waited, count)
        }
        ||| {
            &&& measures.says_exceeds(start, estimate, config.ttft_bucket_size_ms, true)
            &&& measures.says_unlock(
                waited,
                start,
                estimate,
                config.next_bucket_unlock_factor,
                None,
            )
            &&& count == at
        }
        ||| {
            &&& measures.says_exceeds(start, estimate, config.ttft_bucket_size_ms, true)
            &&& exists|left: Score|
                #[trigger] measures.says_unlock(
                    waited,
                    start,
                    estimate,
                    config.next_bucket_unlock_factor,
                    Some(left),
                ) && walk_can_open(config, measures, estimates, at + 1, estimate, left, count)
        }
    }
}

/// Whether the walk over rising estimates, the first of them finite, can end with `count` of them
/// open. The first starts the first bucket.
pub open spec fn can_open<
    E: Fn(Score, Score, u64) -> bool,
    U: Fn(Score, Score, Score, Score) -> Option<Score>,
    L: Fn(u64, u64) -> Score,
>(
    config: WaitAndWidenConfig,
    measures: Measures<E, U, L>,
    estimates: Seq<Score>,
    waited: Score,
    count: int,
) -> bool {
    walk_can_open(config, measures, estimates, 1, estimates[0], waited, count)
}

/// Whether `open` are the positions whose buckets are open: all of them where they fit into one
/// bucket, else those that the walk over them opens.
pub open spec fn are_open<
    E: Fn(Score, Score, u64) -> bool,
    U: Fn(Score, Score, Score, Score) -> Option<Score>,
    L: Fn(u64, u64) -> Score,
>(
    config: WaitAndWidenConfig,
    request: LoadBalancerRequest,
    measures: Measures<E, U, L>,
    candidates: Seq<RoutedClusterSnapshot>,
    indices: Seq<usize>,
    open: Seq<usize>,
) -> bool {
    let fastest = fastest_ttft(config, candidates, indices);
    let slowest = slowest_ttft(config, candidates, indices);
    ||| {
        &&& measures.says_exceeds(fastest, slowest, config.ttft_bucket_size_ms, false)
        &&& open == indices
    }
    ||| {
        &&& measures.says_exceeds(fastest, slowest, config.ttft_bucket_size_ms, true)
        &&& exists|sorted: Seq<usize>, count: int|
            {
                &&& sorted.to_multiset() == indices.to_multiset()
                &&& in_ttft_order(config, candidates, sorted)
                &&& #[trigger] can_open(
                    config,
                    measures,
                    ttfts(config, candidates, sorted),
                    request.waited_ms,
                    count,
                )
                &&& open == #[trigger] sorted.take(count)
            }
    }
}

/// The first of the positions that no other position beats.
pub open spec fn first_least(
    candidates: Seq<RoutedClusterSnapshot>,
    comparator: ClusterComparator,
    sample: Seq<usize>,
) -> usize
    decreases sample.len(),
{
    if sample.len() <= 1 {
        sample.last()
    } else {
        let best = first_least(candidates, comparator, sample.drop_last());
        if comparator.key(candidates[sample.last() as int]) < comparator.key(
            candidates[best as int],
        ) {
            sample.last()
        } else {
            best
        }
    }
}

/// Whether `sample` takes `amount` of the given positions, or all of them where there are not so
/// many, and each at most as often as it is given.
pub open spec fn is_drawn_from(indices: Seq<usize>, amount: int, sample: Seq<usize>) -> bool {
    &&& sample.len() == sample_size(amount, indices.len() as int)
    &&& sample.to_multiset().subset_of(indices.to_multiset())
}

/// Whether a choice is the least of a sample of the given positions; none where there are none.
pub open spec fn sampled_choice(
    config: WaitAndWidenConfig,
    candidates: Seq<RoutedClusterSnapshot>,
    usable: Seq<usize>,
    choice: Option<LoadBalancerCandidateChoice>,
) -> bool {
    if usable.len() == 0 {
        choice is None
    } else {
        exists|sample: Seq<usize>|
            is_drawn_from(usable, config.sample_count as int, sample) && choice == Some(
                chosen(#[trigger] first_least(candidates, config.compared_by(), sample) as int),
            )
    }
}

/// Whether `limit` is the longest queue time that the request accepts.
pub open spec fn is_queue_limit<
    E: Fn(Score, Score, u64) -> bool,
    U: Fn(Score, Score, Score, Score) -> Option<Score>,
    L: Fn(u64, u64) -> Score,
>(config: WaitAndWidenConfig, measures: Measures<E, U, L>, limit: Option<Score>) -> bool {
    match (config.queue_slo, limit) {
        (None, None) => true,
        (Some((floor, ceil)), Some(longest)) => measures.says_queue_limit(floor, ceil, longest),
        _ => false,
    }
}

/// Whether a choice among the given positions is one that `wait-and-widen` can make when the
/// request accepts queues up to `limit`: none where it may go nowhere or no estimate is finite,
/// else the least of a sample of those whose buckets are open and that can take another request.
pub open spec fn choice_within_limit<
    E: Fn(Score, Score, u64) -> bool,
    U: Fn(Score, Score, Score, Score) -> Option<Score>,
    L: Fn(u64, u64) -> Score,
>(
    config: WaitAndWidenConfig,
    request: LoadBalancerRequest,
    measures: Measures<E, U, L>,
    limit: Option<Score>,
    candidates: Seq<RoutedClusterSnapshot>,
    indices: Seq<usize>,
    choice: Option<LoadBalancerCandidateChoice>,
) -> bool {
    let possible = admitted_indices(request, limit, candidates, indices);
    if possible.len() == 0 || !fastest_ttft(config, candidates, possible).finite() {
        choice is None
    } else {
        exists|open: Seq<usize>|
            #[trigger] are_open(config, request, measures, candidates, possible, open)
                && sampled_choice(
                config,
                candidates,
                with_capacity(config.max_queued, candidates, open),
                choice,
            )
    }
}

/// Whether a choice among the given positions is one that `wait-and-widen` can make.
pub open spec fn choice_among<
    E: Fn(Score, Score, u64) -> bool,
    U: Fn(Score, Score, Score, Score) -> Option<Score>,
    L: Fn(u64, u64) -> Score,
>(
    config: WaitAndWidenConfig,
    request: LoadBalancerRequest,
    measures: Measures<E, U, L>,
    candidates: Seq<RoutedClusterSnapshot>,
    indices: Seq<usize>,
    choice: Option<LoadBalancerCandidateChoice>,
) -> bool {
    exists|limit: Option<Score>|
        is_queue_limit(config, measures, limit) && #[trigger] choice_within_limit(
            config,
            request,
            measures,
            limit,
            candidates,
            indices,
            choice,
        )
}

/// The positions of all candidates.
pub open spec fn all_positions(count: nat) -> Seq<usize> {
    Seq::new(count, |i: int| i as usize)
}

/// Whether a choice is one that `wait-and-widen` can make: among the candidates that the request
/// has an affinity to, if one of them can be chosen, else among all.
pub open spec fn wait_and_widen_choice<
    E: Fn(Score, Score, u64) -> bool,
    U: Fn(Score, Score, Score, Score) -> Option<Score>,
    L: Fn(u64, u64) -> Score,
>(
    config: WaitAndWidenConfig,
    request: LoadBalancerRequest,
    measures: Measures<E, U, L>,
    candidates: Seq<RoutedClusterSnapshot>,
    affinity: Option<Seq<usize>>,
    choice: Option<LoadBalancerCandidateChoice>,
) -> bool {
    ||| {
        &&& affinity is Some
        &&& affinity->0.len() > 0
        &&& choice is Some
        &&& choice_among(config, request, measures, candidates, affinity->0, choice)
    }
    ||| {
        &&& affinity is Some && affinity->0.len() > 0 ==> choice_among(
            config,
            request,
            measures,
            candidates,
            affinity->0,
            None,
        )
        &&& choice_among(
            config,
            request,
            measures,
            candidates,
            all_positions(candidates.len()),
            choice,
        )
    }
}

/// Positions that a load balancer can work with: each is that of a candidate.
pub open spec fn valid_positions(indices: Seq<usize>, count: int) -> bool {
    forall|i: int| 0 <= i < indices.len() ==> #[trigger] indices[i] < count
}

pub proof fn lemma_admitted(
    request: LoadBalancerRequest,
    limit: Option<Score>,
    candidates: Seq<RoutedClusterSnapshot>,
    indices: Seq<usize>,
)
    requires
        valid_positions(indices, candidates.len() as int),
    ensures
        valid_positions(
            admitted_indices(request, limit, candidates, indices),
            candidates.len() as int,
        ),
        forall|i: int|
            #![trigger admitted_indices(request, limit, candidates, indices)[i]]
            0 <= i < admitted_indices(request, limit, candidates, indices).len() ==> {
                let index = admitted_indices(request, limit, candidates, indices)[i];
                indices.contains(index) && admitted(request, limit, candidates[index as int])
            },
        forall|i: int|
            0 <= i < indices.len() && admitted(request, limit, candidates[indices[i] as int])
                ==> admitted_indices(request, limit, candidates, indices).contains(
                #[trigger] indices[i],
            ),
    decreases indices.len(),
{
    if indices.len() > 0 {
        let shorter = indices.drop_last();
        let last = indices.last();
        let rest = admitted_indices(request, limit, candidates, shorter);
        let all = admitted_indices(request, limit, candidates, indices);
        lemma_admitted(request, limit, candidates, shorter);
        assert forall|i: int| 0 <= i < all.len() implies {
            let index = #[trigger] all[i];
            indices.contains(index) && admitted(request, limit, candidates[index as int])
                && index < candidates.len()
        } by {
            if i < rest.len() {
                assert(all[i] == rest[i]);
                let at = choose|at: int| 0 <= at < shorter.len() && shorter[at] == rest[i];
                assert(indices[at] == rest[i]);
            } else {
                assert(indices[indices.len() - 1] == last);
            }
        }
        assert forall|i: int|
            0 <= i < indices.len() && admitted(
                request,
                limit,
                candidates[indices[i] as int],
            ) implies all.contains(#[trigger] indices[i]) by {
            if i < shorter.len() {
                assert(shorter[i] == indices[i]);
                assert(rest.contains(indices[i]));
                let at = choose|at: int| 0 <= at < rest.len() && rest[at] == indices[i];
                assert(all[at] == indices[i]);
            } else {
                assert(all.last() == indices[i]);
            }
        }
    }
}

pub proof fn lemma_with_capacity(
    max_queued: u64,
    candidates: Seq<RoutedClusterSnapshot>,
    indices: Seq<usize>,
)
    requires
        valid_positions(indices, candidates.len() as int),
    ensures
        valid_positions(
            with_capacity(max_queued, candidates, indices),
            candidates.len() as int,
        ),
        forall|i: int|
            #![trigger with_capacity(max_queued, candidates, indices)[i]]
            0 <= i < with_capacity(max_queued, candidates, indices).len() ==> {
                let index = with_capacity(max_queued, candidates, indices)[i];
                indices.contains(index) && capacity_left(candidates[index as int], max_queued)
            },
        forall|i: int|
            0 <= i < indices.len() && capacity_left(candidates[indices[i] as int], max_queued)
                ==> with_capacity(max_queued, candidates, indices).contains(#[trigger] indices[i]),
    decreases indices.len(),
{
    if indices.len() > 0 {
        let shorter = indices.drop_last();
        let last = indices.last();
        let rest = with_capacity(max_queued, candidates, shorter);
        let all = with_capacity(max_queued, candidates, indices);
        lemma_with_capacity(max_queued, candidates, shorter);
        assert forall|i: int| 0 <= i < all.len() implies {
            let index = #[trigger] all[i];
            indices.contains(index) && capacity_left(candidates[index as int], max_queued)
                && index < candidates.len()
        } by {
            if i < rest.len() {
                assert(all[i] == rest[i]);
                let at = choose|at: int| 0 <= at < shorter.len() && shorter[at] == rest[i];
                assert(indices[at] == rest[i]);
            } else {
                assert(indices[indices.len() - 1] == last);
            }
        }
        assert forall|i: int|
            0 <= i < indices.len() && capacity_left(
                candidates[indices[i] as int],
                max_queued,
            ) implies all.contains(#[trigger] indices[i]) by {
            if i < shorter.len() {
                assert(shorter[i] == indices[i]);
                assert(rest.contains(indices[i]));
                let at = choose|at: int| 0 <= at < rest.len() && rest[at] == indices[i];
                assert(all[at] == indices[i]);
            } else {
                assert(all.last() == indices[i]);
            }
        }
    }
}

/// The positions of all candidates.
fn positions(count: usize) -> (indices: Vec<usize>)
    ensures
        indices@ == all_positions(count as nat),
        valid_positions(indices@, count as int),
{
    let mut indices: Vec<usize> = Vec::new();
    let mut at: usize = 0;
    while at < count
        invariant
            at <= count,
            indices@ == all_positions(at as nat),
        decreases count - at,
    {
        indices.push(at);
        at = at + 1;
    }
    indices
}

/// Those of the given positions that a request may go to.
fn possible_candidates(
    request: &LoadBalancerRequest,
    limit: Option<Score>,
    candidates: &Vec<RoutedClusterSnapshot>,
    indices: &Vec<usize>,
) -> (possible: Vec<usize>)
    requires
        valid_positions(indices@, candidates@.len() as int),
    ensures
        possible@ == admitted_indices(*request, limit, candidates@, indices@),
{
    let mut possible: Vec<usize> = Vec::new();
    let mut at: usize = 0;
    assert(indices@.take(0) =~= Seq::<usize>::empty());
    while at < indices.len()
        invariant
            at <= indices@.len(),
            valid_positions(indices@, candidates@.len() as int),
            possible@ == admitted_indices(*request, limit, candidates@, indices@.take(at as int)),
        decreases indices@.len() - at,
    {
        let index: usize = indices[at];
        assert(indices@.take(at + 1).drop_last() =~= indices@.take(at as int));
        let candidate: &RoutedClusterSnapshot = &candidates[index];
        let short_enough: bool = match limit {
            None => true,
            Some(longest) => match candidate.scores.queue_ms.compare(longest) {
                Order::Greater => false,
                _ => true,
            },
        };
        if short_enough && !request.excludes_cluster(&candidate.cluster_id) {
            possible.push(index);
        }
        at = at + 1;
    }
    assert(indices@.take(at as int) =~= indices@);
    possible
}

/// Those of the given positions whose cluster can take another request.
fn retain_with_capacity(
    max_queued: u64,
    candidates: &Vec<RoutedClusterSnapshot>,
    indices: &Vec<usize>,
) -> (usable: Vec<usize>)
    requires
        valid_positions(indices@, candidates@.len() as int),
    ensures
        usable@ == with_capacity(max_queued, candidates@, indices@),
{
    let mut usable: Vec<usize> = Vec::new();
    let mut at: usize = 0;
    assert(indices@.take(0) =~= Seq::<usize>::empty());
    while at < indices.len()
        invariant
            at <= indices@.len(),
            valid_positions(indices@, candidates@.len() as int),
            usable@ == with_capacity(max_queued, candidates@, indices@.take(at as int)),
        decreases indices@.len() - at,
    {
        let index: usize = indices[at];
        assert(indices@.take(at + 1).drop_last() =~= indices@.take(at as int));
        if has_capacity(&candidates[index], max_queued) {
            usable.push(index);
        }
        at = at + 1;
    }
    assert(indices@.take(at as int) =~= indices@);
    usable
}

/// The smallest and the largest estimate among the given positions.
fn ttft_range(
    config: &WaitAndWidenConfig,
    candidates: &Vec<RoutedClusterSnapshot>,
    indices: &Vec<usize>,
) -> (range: (Score, Score))
    requires
        indices@.len() > 0,
        valid_positions(indices@, candidates@.len() as int),
    ensures
        range.0 == fastest_ttft(*config, candidates@, indices@),
        range.1 == slowest_ttft(*config, candidates@, indices@),
{
    let first: usize = indices[0];
    let mut fastest: Score = config.bucket_ttft(&candidates[first]);
    let mut slowest: Score = fastest;
    let mut at: usize = 1;
    assert(indices@.take(1).last() == first);
    while at < indices.len()
        invariant
            1 <= at <= indices@.len(),
            valid_positions(indices@, candidates@.len() as int),
            fastest == fastest_ttft(*config, candidates@, indices@.take(at as int)),
            slowest == slowest_ttft(*config, candidates@, indices@.take(at as int)),
        decreases indices@.len() - at,
    {
        let index: usize = indices[at];
        assert(indices@.take(at + 1).drop_last() =~= indices@.take(at as int));
        let ttft: Score = config.bucket_ttft(&candidates[index]);
        if let Order::Less = ttft.compare(fastest) {
            fastest = ttft;
        }
        if let Order::Greater = ttft.compare(slowest) {
            slowest = ttft;
        }
        at = at + 1;
    }
    assert(indices@.take(at as int) =~= indices@);
    (fastest, slowest)
}

/// Whether a cluster comes before another, or stands level with it.
fn is_not_slower(
    config: &WaitAndWidenConfig,
    a: &RoutedClusterSnapshot,
    b: &RoutedClusterSnapshot,
) -> (not: bool)
    ensures
        not == not_slower(*config, *a, *b),
{
    match config.bucket_ttft(a).compare(config.bucket_ttft(b)) {
        Order::Less => true,
        Order::Equal => text_at_most(a.cluster_id.as_str(), b.cluster_id.as_str()),
        Order::Greater => false,
    }
}

proof fn lemma_not_slower(
    config: WaitAndWidenConfig,
    a: RoutedClusterSnapshot,
    b: RoutedClusterSnapshot,
    c: RoutedClusterSnapshot,
)
    ensures
        not_slower(config, a, b) || not_slower(config, b, a),
        not_slower(config, a, b) && not_slower(config, b, c) ==> not_slower(config, a, c),
{
    text_order_is_total(a.cluster_id@, b.cluster_id@);
    if text_le(a.cluster_id@, b.cluster_id@) && text_le(b.cluster_id@, c.cluster_id@) {
        text_order_is_transitive(a.cluster_id@, b.cluster_id@, c.cluster_id@);
    }
}

proof fn lemma_inserted(indices: Seq<usize>, at: int, sorted: Seq<usize>, place: int)
    requires
        0 <= at < indices.len(),
        0 <= place <= sorted.len(),
        sorted.to_multiset() == indices.take(at).to_multiset(),
    ensures
        sorted.insert(place, indices[at]).to_multiset() == indices.take(at + 1).to_multiset(),
{
    broadcast use vstd::seq_lib::group_to_multiset_ensures;

    assert(indices.take(at + 1) =~= indices.take(at).push(indices[at]));
}

/// Puts positions into the order of their clusters.
fn sort_by_ttft(
    config: &WaitAndWidenConfig,
    candidates: &Vec<RoutedClusterSnapshot>,
    indices: &Vec<usize>,
) -> (sorted: Vec<usize>)
    requires
        valid_positions(indices@, candidates@.len() as int),
    ensures
        sorted@.to_multiset() == indices@.to_multiset(),
        in_ttft_order(*config, candidates@, sorted@),
        valid_positions(sorted@, candidates@.len() as int),
        sorted@.len() == indices@.len(),
{
    broadcast use vstd::seq_lib::group_to_multiset_ensures;

    let mut sorted: Vec<usize> = Vec::new();
    let mut at: usize = 0;
    assert(indices@.take(0) =~= Seq::<usize>::empty());
    while at < indices.len()
        invariant
            at <= indices@.len(),
            valid_positions(indices@, candidates@.len() as int),
            sorted@.len() == at,
            forall|i: int| 0 <= i < sorted@.len() ==> #[trigger] sorted@[i] < candidates@.len(),
            sorted@.to_multiset() == indices@.take(at as int).to_multiset(),
            in_ttft_order(*config, candidates@, sorted@),
        decreases indices@.len() - at,
    {
        let index: usize = indices[at];
        let mut place: usize = 0;
        while place < sorted.len() && is_not_slower(
            config,
            &candidates[sorted[place]],
            &candidates[index],
        )
            invariant
                place <= sorted@.len(),
                index < candidates@.len(),
                forall|i: int| 0 <= i < sorted@.len() ==> #[trigger] sorted@[i] < candidates@.len(),
                forall|i: int|
                    0 <= i < place ==> not_slower(
                        *config,
                        candidates@[#[trigger] sorted@[i] as int],
                        candidates@[index as int],
                    ),
            ensures
                place <= sorted@.len(),
                forall|i: int|
                    0 <= i < place ==> not_slower(
                        *config,
                        candidates@[#[trigger] sorted@[i] as int],
                        candidates@[index as int],
                    ),
                place < sorted@.len() ==> !not_slower(
                    *config,
                    candidates@[sorted@[place as int] as int],
                    candidates@[index as int],
                ),
            decreases sorted@.len() - place,
        {
            place = place + 1;
        }
        let ghost before = sorted@;
        sorted.insert(place, index);
        proof {
            lemma_inserted(indices@, at as int, before, place as int);
            let added = candidates@[index as int];
            assert forall|i: int, j: int|
                #![trigger sorted@[i], sorted@[j]]
                0 <= i < j < sorted@.len() implies not_slower(
                *config,
                candidates@[sorted@[i] as int],
                candidates@[sorted@[j] as int],
            ) by {
                if i == place {
                    let other = candidates@[before[j - 1] as int];
                    assert(sorted@[j] == before[j - 1]);
                    let next = candidates@[before[place as int] as int];
                    lemma_not_slower(*config, next, added, added);
                    if j - 1 > place {
                        assert(not_slower(*config, next, other));
                        lemma_not_slower(*config, added, next, other);
                    }
                } else if j == place {
                    assert(sorted@[i] == before[i]);
                } else {
                    let a = if i < place {
                        i
                    } else {
                        i - 1
                    };
                    let b = if j < place {
                        j
                    } else {
                        j - 1
                    };
                    assert(sorted@[i] == before[a] && sorted@[j] == before[b]);
                }
            }
        }
        at = at + 1;
    }
    proof {
        assert(indices@.take(at as int) =~= indices@);
    }
    sorted
}

/// How many of the positions, in the order of their clusters, are in open buckets.
fn count_open<
    E: Fn(Score, Score, u64) -> bool,
    U: Fn(Score, Score, Score, Score) -> Option<Score>,
    L: Fn(u64, u64) -> Score,
>(
    config: &WaitAndWidenConfig,
    measures: &Measures<E, U, L>,
    candidates: &Vec<RoutedClusterSnapshot>,
    sorted: &Vec<usize>,
    waited: Score,
) -> (count: usize)
    requires
        measures.total(),
        sorted@.len() > 0,
        valid_positions(sorted@, candidates@.len() as int),
    ensures
        count <= sorted@.len(),
        can_open(
            *config,
            *measures,
            ttfts(*config, candidates@, sorted@),
            waited,
            count as int,
        ),
{
    let ghost estimates = ttfts(*config, candidates@, sorted@);
    let first: usize = sorted[0];
    let mut start: Score = config.bucket_ttft(&candidates[first]);
    let mut left: Score = waited;
    let mut at: usize = 1;
    while at < sorted.len()
        invariant
            measures.total(),
            1 <= at <= sorted@.len(),
            valid_positions(sorted@, candidates@.len() as int),
            estimates == ttfts(*config, candidates@, sorted@),
            forall|count: int|
                #[trigger] walk_can_open(
                    *config,
                    *measures,
                    estimates,
                    at as int,
                    start,
                    left,
                    count,
                ) ==> can_open(*config, *measures, estimates, waited, count),
        decreases sorted@.len() - at,
    {
        let index: usize = sorted[at];
        let estimate: Score = config.bucket_ttft(&candidates[index]);
        assert(estimate == estimates[at as int]);
        if !estimate.is_finite() {
            assert(walk_can_open(*config, *measures, estimates, at as int, start, left, at as int));
            return at;
        }
        let ghost earlier_start = start;
        let ghost earlier_left = left;
        if measures.gap_exceeds(start, estimate, config.ttft_bucket_size_ms) {
            match measures.pay_for_gap(left, start, estimate, config.next_bucket_unlock_factor) {
                None => {
                    assert(walk_can_open(
                        *config,
                        *measures,
                        estimates,
                        at as int,
                        start,
                        left,
                        at as int,
                    ));
                    return at;
                },
                Some(remaining) => {
                    left = remaining;
                    start = estimate;
                },
            }
        }
        assert forall|count: int|
            #[trigger] walk_can_open(
                *config,
                *measures,
                estimates,
                at + 1,
                start,
                left,
                count,
            ) implies can_open(*config, *measures, estimates, waited, count) by {
            assert(walk_can_open(
                *config,
                *measures,
                estimates,
                at as int,
                earlier_start,
                earlier_left,
                count,
            ));
        }
        at = at + 1;
    }
    assert(walk_can_open(*config, *measures, estimates, at as int, start, left, at as int));
    at
}

proof fn lemma_swapped(items: Seq<usize>, i: int, j: int)
    requires
        0 <= i < items.len(),
        0 <= j < items.len(),
    ensures
        items.update(i, items[j]).update(j, items[i]).to_multiset() == items.to_multiset(),
{
    broadcast use vstd::multiset::group_multiset_axioms;
    broadcast use vstd::seq_lib::group_to_multiset_ensures;

    let between = items.update(i, items[j]);
    let swapped = between.update(j, items[i]);
    assert(items.contains(items[i]));
    assert(items.to_multiset().count(items[i]) > 0);
    assert(between.contains(between[j]));
    assert(between.to_multiset().count(between[j]) > 0);
    assert(between[j] == items[j]);
    assert(swapped.to_multiset() =~= items.to_multiset());
}

/// Whether drawn positions can decide a shuffle of `count` items: the item at each position is
/// swapped with itself or with one behind it.
pub open spec fn can_shuffle(count: int, draws: Seq<usize>) -> bool {
    &&& draws.len() <= count
    &&& forall|i: int| 0 <= i < draws.len() ==> i <= #[trigger] draws[i] < count
}

/// The items once the item at each position was swapped with the one at the position drawn for
/// it, from the front on.
pub open spec fn swapped(items: Seq<usize>, draws: Seq<usize>) -> Seq<usize>
    decreases draws.len(),
{
    if draws.len() == 0 {
        items
    } else {
        let before = swapped(items, draws.drop_last());
        let at = draws.len() - 1;
        let other = draws.last() as int;
        before.update(at, before[other]).update(other, before[at])
    }
}

/// Swaps the item at each position with the one at the position drawn for it, from the front on.
pub fn swap_prefix(items: &mut Vec<usize>, draws: &Vec<usize>)
    requires
        can_shuffle(old(items)@.len() as int, draws@),
    ensures
        final(items)@ == swapped(old(items)@, draws@),
        final(items)@.to_multiset() == old(items)@.to_multiset(),
        final(items)@.len() == old(items)@.len(),
{
    let ghost before = items@;
    let mut index: usize = 0;
    assert(swapped(before, draws@.take(0)) == before);
    while index < draws.len()
        invariant
            index <= draws@.len(),
            can_shuffle(before.len() as int, draws@),
            items@.len() == before.len(),
            items@ == swapped(before, draws@.take(index as int)),
            items@.to_multiset() == before.to_multiset(),
        decreases draws@.len() - index,
    {
        let other: usize = draws[index];
        let ghost earlier = items@;
        let moved: usize = items[index];
        let replacement: usize = items[other];
        items.set(index, replacement);
        items.set(other, moved);
        proof {
            lemma_swapped(earlier, index as int, other as int);
            let longer = draws@.take(index + 1);
            assert(longer.drop_last() =~= draws@.take(index as int));
            assert(longer.last() == other);
        }
        index = index + 1;
    }
    assert(draws@.take(index as int) =~= draws@);
}

/// Brings `count` of the items, drawn at random, to the front: the item at each of the first
/// `count` positions is swapped with itself or with one behind it.
pub fn shuffle_prefix(items: &mut Vec<usize>, count: usize, rng: &mut StdRng)
    requires
        count <= old(items)@.len(),
    ensures
        exists|draws: Seq<usize>|
            {
                &&& draws.len() == count
                &&& can_shuffle(old(items)@.len() as int, draws)
                &&& final(items)@ == #[trigger] swapped(old(items)@, draws)
            },
        final(items)@.to_multiset() == old(items)@.to_multiset(),
        final(items)@.len() == old(items)@.len(),
{
    let mut draws: Vec<usize> = Vec::new();
    while draws.len() < count
        invariant
            draws@.len() <= count <= items@.len(),
            can_shuffle(items@.len() as int, draws@),
        decreases count - draws@.len(),
    {
        let other: usize = random_index(rng, draws.len(), items.len());
        draws.push(other);
    }
    swap_prefix(items, &draws);
}

/// The first of the positions that no other position beats.
fn find_first_least(
    candidates: &Vec<RoutedClusterSnapshot>,
    comparator: ClusterComparator,
    sample: &Vec<usize>,
) -> (least: usize)
    requires
        sample@.len() > 0,
        valid_positions(sample@, candidates@.len() as int),
    ensures
        least == first_least(candidates@, comparator, sample@),
{
    let mut best: usize = sample[0];
    let mut at: usize = 1;
    assert(sample@.take(1).last() == best);
    while at < sample.len()
        invariant
            1 <= at <= sample@.len(),
            valid_positions(sample@, candidates@.len() as int),
            best < candidates@.len(),
            best == first_least(candidates@, comparator, sample@.take(at as int)),
        decreases sample@.len() - at,
    {
        let index: usize = sample[at];
        assert(sample@.take(at + 1).drop_last() =~= sample@.take(at as int));
        if let Order::Less = comparator.compare(&candidates[index], &candidates[best]) {
            best = index;
        }
        at = at + 1;
    }
    assert(sample@.take(at as int) =~= sample@);
    best
}

/// The least of a sample of the given positions.
fn choose_from_unlocked_candidates(
    config: &WaitAndWidenConfig,
    candidates: &Vec<RoutedClusterSnapshot>,
    usable: Vec<usize>,
    rng: &mut StdRng,
) -> (choice: Option<LoadBalancerCandidateChoice>)
    requires
        config.wf(),
        valid_positions(usable@, candidates@.len() as int),
    ensures
        sampled_choice(*config, candidates@, usable@, choice),
{
    if usable.len() == 0 {
        return None;
    }
    let count: usize = if config.sample_count < usable.len() {
        config.sample_count
    } else {
        usable.len()
    };
    let ghost all = usable@;
    let mut sample: Vec<usize> = usable;
    shuffle_prefix(&mut sample, count, rng);
    proof {
        lemma_shuffled(all, sample@, candidates@.len() as int);
    }
    let ghost shuffled = sample@;
    sample.truncate(count);
    proof {
        assert forall|i: int| 0 <= i < sample@.len() implies all.contains(#[trigger] sample@[i])
            && sample@[i] < candidates@.len() by {
            assert(sample@[i] == shuffled[i]);
        }
        lemma_front_is_drawn(all, shuffled, count as int);
        assert(is_drawn_from(all, config.sample_count as int, sample@));
    }
    let least: usize = find_first_least(candidates, config.compare_by(), &sample);
    Some(LoadBalancerCandidateChoice::with_rank_depth_1(least))
}

/// The front of positions in another order is drawn from them.
proof fn lemma_front_is_drawn(indices: Seq<usize>, shuffled: Seq<usize>, count: int)
    requires
        0 <= count <= shuffled.len(),
        shuffled.to_multiset() == indices.to_multiset(),
    ensures
        shuffled.take(count).to_multiset().subset_of(indices.to_multiset()),
{
    broadcast use vstd::multiset::group_multiset_axioms;

    let front = shuffled.take(count);
    let back = shuffled.skip(count);
    assert(front + back =~= shuffled);
    vstd::seq_lib::lemma_multiset_commutative(front, back);
}

/// What is drawn from positions is among them.
pub proof fn lemma_drawn_are_given(indices: Seq<usize>, sample: Seq<usize>)
    requires
        sample.to_multiset().subset_of(indices.to_multiset()),
    ensures
        forall|i: int| 0 <= i < sample.len() ==> indices.contains(#[trigger] sample[i]),
{
    broadcast use vstd::seq_lib::group_to_multiset_ensures;

    assert forall|i: int| 0 <= i < sample.len() implies indices.contains(#[trigger] sample[i]) by {
        assert(sample.contains(sample[i]));
        assert(sample.to_multiset().count(sample[i]) > 0);
        assert(indices.to_multiset().count(sample[i]) > 0);
    }
}

/// One of given positions is drawn from them.
proof fn lemma_one_is_drawn(indices: Seq<usize>, at: int)
    requires
        0 <= at < indices.len(),
    ensures
        seq![indices[at]].to_multiset().subset_of(indices.to_multiset()),
{
    let front = indices.update(0, indices[at]).update(at, indices[0]);
    lemma_swapped(indices, 0, at);
    lemma_front_is_drawn(indices, front, 1);
    assert(front.take(1) =~= seq![indices[at]]);
}

/// Two of given positions are drawn from them.
proof fn lemma_two_are_drawn(indices: Seq<usize>, first: int, second: int)
    requires
        0 <= first < indices.len(),
        0 <= second < indices.len(),
        first != second,
    ensures
        seq![indices[first], indices[second]].to_multiset().subset_of(indices.to_multiset()),
{
    let one = indices.update(0, indices[first]).update(first, indices[0]);
    let place = if second == 0 {
        first
    } else {
        second
    };
    let both = one.update(1, one[place]).update(place, one[1]);
    lemma_swapped(indices, 0, first);
    lemma_swapped(one, 1, place);
    lemma_front_is_drawn(indices, both, 2);
    assert(both.take(2) =~= seq![indices[first], indices[second]]);
}

pub proof fn lemma_shuffled(all: Seq<usize>, shuffled: Seq<usize>, count: int)
    requires
        valid_positions(all, count),
        shuffled.to_multiset() == all.to_multiset(),
    ensures
        valid_positions(shuffled, count),
        shuffled.len() == all.len(),
        forall|i: int| 0 <= i < shuffled.len() ==> all.contains(#[trigger] shuffled[i]),
{
    broadcast use vstd::seq_lib::group_to_multiset_ensures;

    assert(shuffled.to_multiset().len() == shuffled.len());
    assert(all.to_multiset().len() == all.len());
    assert forall|i: int| 0 <= i < shuffled.len() implies all.contains(#[trigger] shuffled[i])
        && shuffled[i] < count by {
        assert(shuffled.contains(shuffled[i]));
        assert(shuffled.to_multiset().count(shuffled[i]) > 0);
        assert(all.contains(shuffled[i]));
    }
}

/// One of two of the given positions: the lesser, or either where they are equal.
fn choose_preferred(
    config: &WaitAndWidenConfig,
    candidates: &Vec<RoutedClusterSnapshot>,
    usable: &Vec<usize>,
    a: usize,
    b: usize,
    rng: &mut StdRng,
) -> (choice: Option<LoadBalancerCandidateChoice>)
    requires
        config.sample_count >= 2,
        config.sample_count == 2 || usable@.len() == 2,
        usable@.len() >= 2,
        valid_positions(usable@, candidates@.len() as int),
        a < usable@.len(),
        b < usable@.len(),
        a != b,
    ensures
        choice is Some,
        sampled_choice(*config, candidates@, usable@, choice),
{
    let first: usize = usable[a];
    let second: usize = usable[b];
    let preferred: usize = match config.compare_by().compare(
        &candidates[first],
        &candidates[second],
    ) {
        Order::Less => first,
        Order::Equal => {
            if random_ratio(rng, 1, 2) {
                first
            } else {
                second
            }
        },
        Order::Greater => second,
    };
    proof {
        let sample = if preferred == first {
            seq![first, second]
        } else {
            seq![second, first]
        };
        reveal_with_fuel(first_least, 2);
        assert(sample.drop_last() =~= seq![sample[0]]);
        assert(first_least(candidates@, config.compared_by(), sample) == preferred);
        lemma_two_are_drawn(usable@, a as int, b as int);
        lemma_two_are_drawn(usable@, b as int, a as int);
        assert(is_drawn_from(usable@, config.sample_count as int, sample));
    }
    Some(LoadBalancerCandidateChoice::with_rank_depth_1(preferred))
}

/// The least of a sample of the given positions, for the sample sizes that need no shuffling.
fn choose_from_unlocked_candidate_refs(
    config: &WaitAndWidenConfig,
    candidates: &Vec<RoutedClusterSnapshot>,
    usable: Vec<usize>,
    rng: &mut StdRng,
) -> (choice: Option<LoadBalancerCandidateChoice>)
    requires
        config.wf(),
        valid_positions(usable@, candidates@.len() as int),
    ensures
        sampled_choice(*config, candidates@, usable@, choice),
        choice is None <==> usable@.len() == 0,
{
    if usable.len() == 0 {
        return None;
    }
    if config.sample_count == 1 || (config.sample_count == 2 && usable.len() == 1) {
        let at: usize = random_index(rng, 0, usable.len());
        let index: usize = usable[at];
        proof {
            let sample = seq![index];
            lemma_one_is_drawn(usable@, at as int);
            assert(is_drawn_from(usable@, config.sample_count as int, sample));
            assert(first_least(candidates@, config.compared_by(), sample) == index);
        }
        return Some(LoadBalancerCandidateChoice::with_rank_depth_1(index));
    }
    if config.sample_count == 2 {
        let (a, b) = super::power_of_n::sample_distinct_pair(usable.len(), rng);
        return choose_preferred(config, candidates, &usable, a, b, rng);
    }
    choose_from_unlocked_candidates(config, candidates, usable, rng)
}

/// Whether every estimate among the given positions is finite.
fn all_finite(
    config: &WaitAndWidenConfig,
    candidates: &Vec<RoutedClusterSnapshot>,
    indices: &Vec<usize>,
) -> (finite: bool)
    requires
        valid_positions(indices@, candidates@.len() as int),
    ensures
        finite == forall|i: int|
            0 <= i < indices@.len() ==> config.ttft(
                candidates@[#[trigger] indices@[i] as int],
            ).finite(),
{
    let mut at: usize = 0;
    while at < indices.len()
        invariant
            at <= indices@.len(),
            valid_positions(indices@, candidates@.len() as int),
            forall|i: int|
                0 <= i < at ==> config.ttft(
                    candidates@[#[trigger] indices@[i] as int],
                ).finite(),
        decreases indices@.len() - at,
    {
        let index: usize = indices[at];
        if !config.bucket_ttft(&candidates[index]).is_finite() {
            return false;
        }
        at = at + 1;
    }
    true
}

/// If all estimates are finite, so is the smallest.
proof fn lemma_fastest_is_finite(
    config: WaitAndWidenConfig,
    candidates: Seq<RoutedClusterSnapshot>,
    indices: Seq<usize>,
)
    requires
        indices.len() > 0,
        forall|i: int|
            0 <= i < indices.len() ==> config.ttft(
                candidates[#[trigger] indices[i] as int],
            ).finite(),
    ensures
        fastest_ttft(config, candidates, indices).finite(),
    decreases indices.len(),
{
    assert(indices[indices.len() - 1] == indices.last());
    if indices.len() > 1 {
        let shorter = indices.drop_last();
        assert forall|i: int| 0 <= i < shorter.len() implies config.ttft(
            candidates[#[trigger] shorter[i] as int],
        ).finite() by {
            assert(indices[i] == shorter[i]);
        }
        lemma_fastest_is_finite(config, candidates, shorter);
    }
}

/// Whether the way for requests that ignore queues can be taken, if those that the request may go
/// to fit into one bucket: queues are ignored and not limited, at most two clusters are excluded,
/// every estimate is finite, and one of the clusters can take another request.
pub open spec fn single_bucket_will_do(
    config: WaitAndWidenConfig,
    request: LoadBalancerRequest,
    candidates: Seq<RoutedClusterSnapshot>,
    indices: Seq<usize>,
) -> bool {
    let possible = admitted_indices(request, None, candidates, indices);
    &&& config.ignore_queue_time
    &&& config.queue_slo is None
    &&& request.excluded_cluster_ids@.len() <= 2
    &&& forall|i: int|
        0 <= i < possible.len() ==> config.ttft(
            candidates[#[trigger] possible[i] as int],
        ).finite()
    &&& with_capacity(config.max_queued, candidates, possible).len() > 0
}

/// Whether `answer` is an answer to the question whether the given positions, of which there is
/// at least one, fit into one bucket.
pub open spec fn says_one_bucket<
    E: Fn(Score, Score, u64) -> bool,
    U: Fn(Score, Score, Score, Score) -> Option<Score>,
    L: Fn(u64, u64) -> Score,
>(
    config: WaitAndWidenConfig,
    measures: Measures<E, U, L>,
    candidates: Seq<RoutedClusterSnapshot>,
    indices: Seq<usize>,
    answer: bool,
) -> bool {
    measures.says_exceeds(
        fastest_ttft(config, candidates, indices),
        slowest_ttft(config, candidates, indices),
        config.ttft_bucket_size_ms,
        !answer,
    )
}

/// The way for requests that ignore queues: where all candidates fit into one bucket, no estimate
/// of a queue is needed but for those sampled. `None` leaves the decision to the general way.
fn choose_from_single_bucket<
    E: Fn(Score, Score, u64) -> bool,
    U: Fn(Score, Score, Score, Score) -> Option<Score>,
    L: Fn(u64, u64) -> Score,
>(
    config: &WaitAndWidenConfig,
    request: &LoadBalancerRequest,
    measures: &Measures<E, U, L>,
    candidates: &Vec<RoutedClusterSnapshot>,
    all: &Vec<usize>,
    rng: &mut StdRng,
) -> (choice: Option<LoadBalancerCandidateChoice>)
    requires
        config.wf(),
        measures.total(),
        valid_positions(all@, candidates@.len() as int),
    ensures
        ({
            let possible = admitted_indices(*request, None, candidates@, all@);
            let usable = with_capacity(config.max_queued, candidates@, possible);
            let will_do = single_bucket_will_do(*config, *request, candidates@, all@);
            match choice {
                Some(_) => {
                    &&& will_do
                    &&& says_one_bucket(*config, *measures, candidates@, possible, true)
                    &&& sampled_choice(*config, candidates@, usable, choice)
                },
                None => will_do ==> says_one_bucket(
                    *config,
                    *measures,
                    candidates@,
                    possible,
                    false,
                ),
            }
        }),
        choice is Some ==> choice_among(
            *config,
            *request,
            *measures,
            candidates@,
            all@,
            choice,
        ),
{
    if !config.ignore_queue_time || config.queue_slo.is_some() {
        return None;
    }
    if request.excluded_cluster_ids.len() > 2 {
        return None;
    }
    let possible: Vec<usize> = possible_candidates(request, None, candidates, all);
    proof {
        lemma_admitted(*request, None, candidates@, all@);
    }
    if possible.len() == 0 || !all_finite(config, candidates, &possible) {
        return None;
    }
    let (fastest, slowest) = ttft_range(config, candidates, &possible);
    if measures.gap_exceeds(fastest, slowest, config.ttft_bucket_size_ms) {
        return None;
    }
    let usable: Vec<usize> = retain_with_capacity(config.max_queued, candidates, &possible);
    proof {
        lemma_fastest_is_finite(*config, candidates@, possible@);
        lemma_with_capacity(config.max_queued, candidates@, possible@);
        assert(are_open(*config, *request, *measures, candidates@, possible@, possible@));
    }
    let choice: Option<LoadBalancerCandidateChoice> = choose_from_unlocked_candidate_refs(
        config,
        candidates,
        usable,
        rng,
    );
    assert(choice_within_limit(
        *config,
        *request,
        *measures,
        None,
        candidates@,
        all@,
        choice,
    ));
    choice
}

/// The general way: sort the clusters that the request may go to into buckets, open those that
/// it has waited for, and take the least of a sample of them.
fn choose_from_candidate_iter<
    E: Fn(Score, Score, u64) -> bool,
    U: Fn(Score, Score, Score, Score) -> Option<Score>,
    L: Fn(u64, u64) -> Score,
>(
    config: &WaitAndWidenConfig,
    request: &LoadBalancerRequest,
    measures: &Measures<E, U, L>,
    candidates: &Vec<RoutedClusterSnapshot>,
    indices: &Vec<usize>,
    rng: &mut StdRng,
) -> (choice: Option<LoadBalancerCandidateChoice>)
    requires
        config.wf(),
        measures.total(),
        valid_positions(indices@, candidates@.len() as int),
    ensures
        choice_among(*config, *request, *measures, candidates@, indices@, choice),
{
    let limit: Option<Score> = match config.queue_slo {
        None => None,
        Some((floor, ceil)) => Some(measures.longest_queue(floor, ceil)),
    };
    assert(is_queue_limit(*config, *measures, limit));
    let possible: Vec<usize> = possible_candidates(request, limit, candidates, indices);
    proof {
        lemma_admitted(*request, limit, candidates@, indices@);
    }
    if possible.len() == 0 {
        assert(choice_within_limit(
            *config,
            *request,
            *measures,
            limit,
            candidates@,
            indices@,
            None,
        ));
        return None;
    }
    let (fastest, slowest) = ttft_range(config, candidates, &possible);
    if !fastest.is_finite() {
        assert(choice_within_limit(
            *config,
            *request,
            *measures,
            limit,
            candidates@,
            indices@,
            None,
        ));
        return None;
    }
    let ghost all = possible@;
    let mut open: Vec<usize> = possible;
    if measures.gap_exceeds(fastest, slowest, config.ttft_bucket_size_ms) {
        let sorted: Vec<usize> = sort_by_ttft(config, candidates, &open);
        let count: usize = count_open(config, measures, candidates, &sorted, request.waited_ms);
        let ghost in_order = sorted@;
        open = sorted;
        open.truncate(count);
        proof {
            assert(open@ =~= in_order.take(count as int));
            assert(can_open(
                *config,
                *measures,
                ttfts(*config, candidates@, in_order),
                request.waited_ms,
                count as int,
            ));
            assert(are_open(*config, *request, *measures, candidates@, all, open@));
            assert forall|i: int| 0 <= i < open@.len() implies #[trigger] open@[i]
                < candidates@.len() by {
                assert(open@[i] == in_order[i]);
            }
        }
    } else {
        assert(are_open(*config, *request, *measures, candidates@, all, open@));
    }
    let usable: Vec<usize> = retain_with_capacity(config.max_queued, candidates, &open);
    proof {
        lemma_with_capacity(config.max_queued, candidates@, open@);
    }
    let choice: Option<LoadBalancerCandidateChoice> = choose_from_unlocked_candidates(
        config,
        candidates,
        usable,
        rng,
    );
    assert(choice_within_limit(
        *config,
        *request,
        *measures,
        limit,
        candidates@,
        indices@,
        choice,
    ));
    choice
}

/// Whether the way for two candidates can be taken, if they fit into one bucket: there are two,
/// both are sampled, queues are not limited, and each can be chosen and has a finite estimate.
pub open spec fn two_are_ready(
    config: WaitAndWidenConfig,
    request: LoadBalancerRequest,
    candidates: Seq<RoutedClusterSnapshot>,
    indices: Seq<usize>,
) -> bool {
    &&& indices.len() == 2
    &&& config.sample_count >= 2
    &&& config.queue_slo is None
    &&& forall|i: int|
        0 <= i < indices.len() ==> {
            let candidate = candidates[#[trigger] indices[i] as int];
            &&& !request.excludes(candidate.cluster_id@)
            &&& capacity_left(candidate, config.max_queued)
            &&& config.ttft(candidate).finite()
        }
}

/// The way for exactly two candidates that both can be chosen and fit into one bucket: both are
/// sampled, so they need no shuffling. `None` leaves the decision to the general way.
fn choose_from_two_ready_affinity_candidates<
    E: Fn(Score, Score, u64) -> bool,
    U: Fn(Score, Score, Score, Score) -> Option<Score>,
    L: Fn(u64, u64) -> Score,
>(
    config: &WaitAndWidenConfig,
    request: &LoadBalancerRequest,
    measures: &Measures<E, U, L>,
    candidates: &Vec<RoutedClusterSnapshot>,
    indices: &Vec<usize>,
    rng: &mut StdRng,
) -> (choice: Option<LoadBalancerCandidateChoice>)
    requires
        config.wf(),
        measures.total(),
        valid_positions(indices@, candidates@.len() as int),
    ensures
        ({
            let ready = two_are_ready(*config, *request, candidates@, indices@);
            match choice {
                Some(_) => {
                    &&& ready
                    &&& says_one_bucket(*config, *measures, candidates@, indices@, true)
                    &&& sampled_choice(*config, candidates@, indices@, choice)
                },
                None => ready ==> says_one_bucket(
                    *config,
                    *measures,
                    candidates@,
                    indices@,
                    false,
                ),
            }
        }),
        choice is Some ==> choice_among(
            *config,
            *request,
            *measures,
            candidates@,
            indices@,
            choice,
        ),
{
    if indices.len() != 2 || config.sample_count < 2 || config.queue_slo.is_some() {
        return None;
    }
    let index_a: usize = indices[0];
    let index_b: usize = indices[1];
    let a: &RoutedClusterSnapshot = &candidates[index_a];
    let b: &RoutedClusterSnapshot = &candidates[index_b];
    if request.excludes_cluster(&a.cluster_id) || !has_capacity(a, config.max_queued)
        || request.excludes_cluster(&b.cluster_id) || !has_capacity(b, config.max_queued) {
        return None;
    }
    let ttft_a: Score = config.bucket_ttft(a);
    let ttft_b: Score = config.bucket_ttft(b);
    if !ttft_a.is_finite() || !ttft_b.is_finite() {
        return None;
    }
    let (fastest, slowest) = ttft_range(config, candidates, indices);
    if measures.gap_exceeds(fastest, slowest, config.ttft_bucket_size_ms) {
        return None;
    }
    proof {
        let all = indices@;
        let first = all.drop_last();
        assert(first =~= seq![index_a]);
        assert(all.last() == index_b);
        reveal_with_fuel(admitted_indices, 3);
        reveal_with_fuel(with_capacity, 3);
        assert(first.drop_last() =~= Seq::<usize>::empty());
        assert(admitted_indices(*request, None, candidates@, all) =~= all);
        assert(with_capacity(config.max_queued, candidates@, all) =~= all);
        assert forall|i: int| 0 <= i < all.len() implies config.ttft(
            candidates@[#[trigger] all[i] as int],
        ).finite() by {}
        lemma_fastest_is_finite(*config, candidates@, all);
        assert(are_open(*config, *request, *measures, candidates@, all, all));
    }
    let choice: Option<LoadBalancerCandidateChoice> = choose_preferred(
        config,
        candidates,
        indices,
        0,
        1,
        rng,
    );
    assert(choice_within_limit(
        *config,
        *request,
        *measures,
        None,
        candidates@,
        indices@,
        choice,
    ));
    choice
}

/// Chooses among the given positions.
pub fn choose_from_candidate_indices<
    E: Fn(Score, Score, u64) -> bool,
    U: Fn(Score, Score, Score, Score) -> Option<Score>,
    L: Fn(u64, u64) -> Score,
>(
    config: &WaitAndWidenConfig,
    request: &LoadBalancerRequest,
    measures: &Measures<E, U, L>,
    candidates: &Vec<RoutedClusterSnapshot>,
    indices: &Vec<usize>,
    rng: &mut StdRng,
) -> (choice: Option<LoadBalancerCandidateChoice>)
    requires
        config.wf(),
        measures.total(),
        valid_positions(indices@, candidates@.len() as int),
    ensures
        indices@.len() == 0 ==> choice is None,
        indices@.len() > 0 ==> choice_among(
            *config,
            *request,
            *measures,
            candidates@,
            indices@,
            choice,
        ),
{
    if indices.len() == 0 {
        return None;
    }
    let ready: Option<LoadBalancerCandidateChoice> = choose_from_two_ready_affinity_candidates(
        config,
        request,
        measures,
        candidates,
        indices,
        rng,
    );
    if ready.is_some() {
        return ready;
    }
    choose_from_candidate_iter(config, request, measures, candidates, indices, rng)
}

/// Chooses by `wait-and-widen`.
#[derive(Clone, Debug)]
pub struct WaitAndWidenLoadBalancer {
    pub config: WaitAndWidenConfig,
}

/// The positions that a request has an affinity to.
pub open spec fn affinity_positions(affinity: Option<Vec<usize>>) -> Option<Seq<usize>> {
    match affinity {
        Some(indices) => Some(indices@),
        None => None,
    }
}

impl WaitAndWidenLoadBalancer {
    /// Chooses a cluster with draws from `rng`: among those that the request has an affinity to,
    /// if one of them can be chosen, else among all.
    pub fn choose_candidate_with_rng<
        E: Fn(Score, Score, u64) -> bool,
        U: Fn(Score, Score, Score, Score) -> Option<Score>,
        L: Fn(u64, u64) -> Score,
    >(
        &self,
        request: &LoadBalancerRequest,
        candidates: &Vec<RoutedClusterSnapshot>,
        affinity: &Option<Vec<usize>>,
        measures: &Measures<E, U, L>,
        rng: &mut StdRng,
    ) -> (choice: Option<LoadBalancerCandidateChoice>)
        requires
            self.config.wf(),
            measures.total(),
            affinity is Some ==> valid_positions(affinity->0@, candidates@.len() as int),
        ensures
            wait_and_widen_choice(
                self.config,
                *request,
                *measures,
                candidates@,
                affinity_positions(*affinity),
                choice,
            ),
    {
        if let Some(indices) = affinity {
            let near: Option<LoadBalancerCandidateChoice> = choose_from_candidate_indices(
                &self.config,
                request,
                measures,
                candidates,
                indices,
                rng,
            );
            if near.is_some() {
                return near;
            }
        }
        let all: Vec<usize> = positions(candidates.len());
        let quick: Option<LoadBalancerCandidateChoice> = choose_from_single_bucket(
            &self.config,
            request,
            measures,
            candidates,
            &all,
            rng,
        );
        if quick.is_some() {
            return quick;
        }
        choose_from_candidate_iter(&self.config, request, measures, candidates, &all, rng)
    }

    /// Chooses a cluster.
    pub fn choose_candidate<
        E: Fn(Score, Score, u64) -> bool,
        U: Fn(Score, Score, Score, Score) -> Option<Score>,
        L: Fn(u64, u64) -> Score,
    >(
        &self,
        request: &LoadBalancerRequest,
        candidates: &Vec<RoutedClusterSnapshot>,
        affinity: &Option<Vec<usize>>,
        measures: &Measures<E, U, L>,
    ) -> (choice: Option<LoadBalancerCandidateChoice>)
        requires
            self.config.wf(),
            measures.total(),
            affinity is Some ==> valid_positions(affinity->0@, candidates@.len() as int),
        ensures
            wait_and_widen_choice(
                self.config,
                *request,
                *measures,
                candidates@,
                affinity_positions(*affinity),
                choice,
            ),
    {
        let mut rng: StdRng = new_rng();
        self.choose_candidate_with_rng(request, candidates, affinity, measures, &mut rng)
    }
}

proof fn lemma_walk_goes_on<
    E: Fn(Score, Score, u64) -> bool,
    U: Fn(Score, Score, Score, Score) -> Option<Score>,
    L: Fn(u64, u64) -> Score,
>(
    config: WaitAndWidenConfig,
    measures: Measures<E, U, L>,
    estimates: Seq<Score>,
    at: int,
    start: Score,
    waited: Score,
    count: int,
    upto: int,
)
    requires
        0 <= at <= upto <= estimates.len(),
        walk_can_open(config, measures, estimates, at, start, waited, count),
        forall|j: int|
            at <= j < upto ==> (#[trigger] estimates[j]).finite() && !measures.says_exceeds(
                start,
                estimates[j],
                config.ttft_bucket_size_ms,
                true,
            ),
    ensures
        upto <= count <= estimates.len(),
    decreases estimates.len() - at,
{
    if at < estimates.len() && estimates[at].finite() {
        if measures.says_exceeds(start, estimates[at], config.ttft_bucket_size_ms, false)
            && walk_can_open(config, measures, estimates, at + 1, start, waited, count) {
            if at < upto {
                lemma_walk_goes_on(
                    config,
                    measures,
                    estimates,
                    at + 1,
                    start,
                    waited,
                    count,
                    upto,
                );
            } else {
                lemma_walk_goes_on(
                    config,
                    measures,
                    estimates,
                    at + 1,
                    start,
                    waited,
                    count,
                    at + 1,
                );
            }
        } else if !measures.says_unlock(
            waited,
            start,
            estimates[at],
            config.next_bucket_unlock_factor,
            None,
        ) || count != at {
            let left = choose|left: Score|
                #[trigger] measures.says_unlock(
                    waited,
                    start,
                    estimates[at],
                    config.next_bucket_unlock_factor,
                    Some(left),
                ) && walk_can_open(
                    config,
                    measures,
                    estimates,
                    at + 1,
                    estimates[at],
                    left,
                    count,
                );
            lemma_walk_goes_on(
                config,
                measures,
                estimates,
                at + 1,
                estimates[at],
                left,
                count,
                at + 1,
            );
        }
    }
}

/// The first bucket is open at once: however short the wait, every cluster whose estimate is
/// finite and within a bucket of the smallest is open, up to the first that is not.
pub proof fn first_bucket_is_open_at_once<
    E: Fn(Score, Score, u64) -> bool,
    U: Fn(Score, Score, Score, Score) -> Option<Score>,
    L: Fn(u64, u64) -> Score,
>(
    config: WaitAndWidenConfig,
    measures: Measures<E, U, L>,
    estimates: Seq<Score>,
    waited: Score,
    count: int,
    within: int,
)
    requires
        1 <= within <= estimates.len(),
        can_open(config, measures, estimates, waited, count),
        forall|j: int|
            1 <= j < within ==> (#[trigger] estimates[j]).finite() && !measures.says_exceeds(
                estimates[0],
                estimates[j],
                config.ttft_bucket_size_ms,
                true,
            ),
    ensures
        within <= count <= estimates.len(),
{
    lemma_walk_goes_on(config, measures, estimates, 1, estimates[0], waited, count, within);
}

pub proof fn lemma_first_least(
    candidates: Seq<RoutedClusterSnapshot>,
    comparator: ClusterComparator,
    sample: Seq<usize>,
)
    requires
        sample.len() > 0,
    ensures
        sample.contains(first_least(candidates, comparator, sample)),
        forall|i: int|
            0 <= i < sample.len() ==> comparator.key(
                candidates[first_least(candidates, comparator, sample) as int],
            ) <= comparator.key(candidates[#[trigger] sample[i] as int]),
    decreases sample.len(),
{
    assert(sample[sample.len() - 1] == sample.last());
    if sample.len() > 1 {
        let shorter = sample.drop_last();
        lemma_first_least(candidates, comparator, shorter);
        let best = first_least(candidates, comparator, shorter);
        let at = choose|at: int| 0 <= at < shorter.len() && shorter[at] == best;
        assert(sample[at] == best);
        assert forall|i: int| 0 <= i < sample.len() implies comparator.key(
            candidates[first_least(candidates, comparator, sample) as int],
        ) <= comparator.key(candidates[#[trigger] sample[i] as int]) by {
            if i < shorter.len() {
                assert(shorter[i] == sample[i]);
            }
        }
    }
}

/// A cluster chosen among given positions is at one of them; the request did not fail on it, its
/// queue is not longer than the request accepts, and it can take another request.
pub proof fn wait_and_widen_chooses_a_usable_cluster<
    E: Fn(Score, Score, u64) -> bool,
    U: Fn(Score, Score, Score, Score) -> Option<Score>,
    L: Fn(u64, u64) -> Score,
>(
    config: WaitAndWidenConfig,
    request: LoadBalancerRequest,
    measures: Measures<E, U, L>,
    candidates: Seq<RoutedClusterSnapshot>,
    indices: Seq<usize>,
    choice: Option<LoadBalancerCandidateChoice>,
)
    requires
        config.wf(),
        valid_positions(indices, candidates.len() as int),
        choice_among(config, request, measures, candidates, indices, choice),
    ensures
        choice matches Some(made) ==> {
            &&& indices.contains(made.candidate_index)
            &&& made.candidate_index < candidates.len()
            &&& capacity_left(candidates[made.candidate_index as int], config.max_queued)
            &&& exists|limit: Option<Score>|
                #[trigger] is_queue_limit(config, measures, limit) && admitted(
                    request,
                    limit,
                    candidates[made.candidate_index as int],
                )
        },
{
    if choice is Some {
        let limit = choose|limit: Option<Score>|
            is_queue_limit(config, measures, limit) && #[trigger] choice_within_limit(
                config,
                request,
                measures,
                limit,
                candidates,
                indices,
                choice,
            );
        let possible = admitted_indices(request, limit, candidates, indices);
        lemma_admitted(request, limit, candidates, indices);
        let open = choose|open: Seq<usize>|
            #[trigger] are_open(config, request, measures, candidates, possible, open)
                && sampled_choice(
                config,
                candidates,
                with_capacity(config.max_queued, candidates, open),
                choice,
            );
        lemma_open(config, request, measures, candidates, possible, open);
        lemma_with_capacity(config.max_queued, candidates, open);
        let usable = with_capacity(config.max_queued, candidates, open);
        let sample = choose|sample: Seq<usize>|
            is_drawn_from(usable, config.sample_count as int, sample) && choice == Some(
                chosen(#[trigger] first_least(candidates, config.compared_by(), sample) as int),
            );
        lemma_first_least(candidates, config.compared_by(), sample);
        let index = first_least(candidates, config.compared_by(), sample);
        lemma_drawn_are_given(usable, sample);
        assert(usable.contains(index));
        assert(open.contains(index));
        assert(possible.contains(index));
        let at = choose|at: int| 0 <= at < possible.len() && possible[at] == index;
        assert(admitted(request, limit, candidates[possible[at] as int]));
    }
}

pub proof fn lemma_open<
    E: Fn(Score, Score, u64) -> bool,
    U: Fn(Score, Score, Score, Score) -> Option<Score>,
    L: Fn(u64, u64) -> Score,
>(
    config: WaitAndWidenConfig,
    request: LoadBalancerRequest,
    measures: Measures<E, U, L>,
    candidates: Seq<RoutedClusterSnapshot>,
    indices: Seq<usize>,
    open: Seq<usize>,
)
    requires
        indices.len() > 0,
        valid_positions(indices, candidates.len() as int),
        are_open(config, request, measures, candidates, indices, open),
    ensures
        valid_positions(open, candidates.len() as int),
        forall|i: int| 0 <= i < open.len() ==> indices.contains(#[trigger] open[i]),
{
    if open != indices {
        let (sorted, count) = choose|sorted: Seq<usize>, count: int|
            {
                &&& sorted.to_multiset() == indices.to_multiset()
                &&& in_ttft_order(config, candidates, sorted)
                &&& #[trigger] can_open(
                    config,
                    measures,
                    ttfts(config, candidates, sorted),
                    request.waited_ms,
                    count,
                )
                &&& open == #[trigger] sorted.take(count)
            };
        lemma_shuffled(indices, sorted, candidates.len() as int);
        let estimates = ttfts(config, candidates, sorted);
        lemma_walk_goes_on(
            config,
            measures,
            estimates,
            1,
            estimates[0],
            request.waited_ms,
            count,
            1,
        );
        assert forall|i: int| 0 <= i < open.len() implies indices.contains(#[trigger] open[i])
            && open[i] < candidates.len() by {
            assert(open[i] == sorted[i]);
        }
    }
}

} // verus!
