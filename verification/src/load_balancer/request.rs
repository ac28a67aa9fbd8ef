//! Requests, the clusters they can go to, and the choice between them.

use super::score::Score;
use crate::text::texts;
use vstd::prelude::*;

verus! {

/// What a load balancer reads of a cluster's statistics.
#[derive(Clone, Copy, Debug, PartialEq, Eq, Structural)]
pub struct ModelStats {
    pub queue_size: u64,
    pub num_running_queries: u64,
    pub max_engine_concurrency: u64,
    pub kv_cache_capacity_tokens: u64,
    pub kv_cache_free_tokens: u64,
}

/// What a cluster scores for one request. `ttft_ms` is round trip, queue delay and prefill time
/// together; the two scores after it leave out the queue delay and the prefill time.
#[derive(Clone, Copy, Debug, PartialEq, Eq, Structural)]
pub struct ClusterScores {
    pub ttft_ms: Score,
    pub ttft_without_queue_ms: Score,
    pub ttft_without_prefill_ms: Score,
    pub rtt_ms: Score,
    pub queue_ms: Score,
    pub prefill_ms: Score,
    pub input_work_seconds: Score,
    pub utilization: Score,
}

/// A cluster as it stands when a request is routed.
#[derive(Clone, Debug)]
pub struct RoutedClusterSnapshot {
    pub cluster_id: String,
    pub stats: ModelStats,
    pub scores: ClusterScores,
}

/// What requests are routed for: a model, within a routing scope.
#[derive(Clone, Debug)]
pub struct RoutingTargetKey {
    pub routing_key: Option<String>,
    pub model_id: String,
}

/// A request to be routed.
#[derive(Clone, Debug)]
pub struct LoadBalancerRequest {
    pub routing_target: RoutingTargetKey,
    pub input_tokens: Option<u64>,
    /// Milliseconds since the request came in.
    pub waited_ms: Score,
    /// Clusters that the request failed on.
    pub excluded_cluster_ids: Vec<String>,
}

/// The cluster that a request goes to: its position among the candidates, how far down a ranking
/// it stands, and whether one above it was passed over for want of cache room.
#[derive(Clone, Copy, Debug, PartialEq, Eq, Structural)]
pub struct LoadBalancerCandidateChoice {
    pub candidate_index: usize,
    pub rank_depth: usize,
    pub selected_after_kv_free_tokens_skip: bool,
}

/// The choice of a candidate at the top of its ranking.
pub open spec fn chosen(index: int) -> LoadBalancerCandidateChoice {
    LoadBalancerCandidateChoice {
        candidate_index: index as usize,
        rank_depth: 1,
        selected_after_kv_free_tokens_skip: false,
    }
}

impl LoadBalancerCandidateChoice {
    /// The choice of a candidate at the top of its ranking.
    pub fn with_rank_depth_1(candidate_index: usize) -> (choice: Self)
        ensures
            choice == chosen(candidate_index as int),
    {
        LoadBalancerCandidateChoice {
            candidate_index,
            rank_depth: 1,
            selected_after_kv_free_tokens_skip: false,
        }
    }
}

impl LoadBalancerRequest {
    /// Whether the request failed on a cluster.
    pub open spec fn excludes(&self, cluster_id: Seq<char>) -> bool {
        texts(self.excluded_cluster_ids@).contains(cluster_id)
    }

    /// Whether the request failed on any cluster.
    pub fn has_excluded_clusters(&self) -> (any: bool)
        ensures
            any == (self.excluded_cluster_ids@.len() > 0),
    {
        self.excluded_cluster_ids.len() > 0
    }

    /// Whether the request failed on a cluster.
    pub fn excludes_cluster(&self, cluster_id: &String) -> (excluded: bool)
        ensures
            excluded == self.excludes(cluster_id@),
    {
        let ghost all = texts(self.excluded_cluster_ids@);
        let mut at: usize = 0;
        while at < self.excluded_cluster_ids.len()
            invariant
                all == texts(self.excluded_cluster_ids@),
                at <= self.excluded_cluster_ids@.len(),
                forall|i: int| 0 <= i < at ==> all[i] != cluster_id@,
            decreases self.excluded_cluster_ids@.len() - at,
        {
            if self.excluded_cluster_ids[at] == *cluster_id {
                assert(all[at as int] == cluster_id@);
                return true;
            }
            at = at + 1;
        }
        false
    }
}

/// The positions, among the first `count` candidates, of those that a request may still go to.
pub open spec fn eligible_indices(
    request: LoadBalancerRequest,
    candidates: Seq<RoutedClusterSnapshot>,
    count: int,
) -> Seq<usize>
    decreases count,
{
    if count <= 0 {
        Seq::empty()
    } else if request.excludes(candidates[count - 1].cluster_id@) {
        eligible_indices(request, candidates, count - 1)
    } else {
        eligible_indices(request, candidates, count - 1).push((count - 1) as usize)
    }
}

/// What the positions of eligible candidates have in common: they rise, and each is the position
/// of a candidate that is not excluded.
pub proof fn lemma_eligible_indices(
    request: LoadBalancerRequest,
    candidates: Seq<RoutedClusterSnapshot>,
    count: int,
)
    requires
        0 <= count <= candidates.len() <= usize::MAX,
    ensures
        forall|i: int|
            #![trigger eligible_indices(request, candidates, count)[i]]
            0 <= i < eligible_indices(request, candidates, count).len() ==> {
                let index = eligible_indices(request, candidates, count)[i];
                index < count && !request.excludes(candidates[index as int].cluster_id@)
            },
        forall|i: int, j: int|
            #![trigger eligible_indices(request, candidates, count)[i], eligible_indices(
                request,
                candidates,
                count,
            )[j]]
            0 <= i < j < eligible_indices(request, candidates, count).len() ==> eligible_indices(
                request,
                candidates,
                count,
            )[i] < eligible_indices(request, candidates, count)[j],
        forall|k: int|
            #![trigger candidates[k]]
            0 <= k < count && !request.excludes(candidates[k].cluster_id@) ==> eligible_indices(
                request,
                candidates,
                count,
            ).contains(k as usize),
        eligible_indices(request, candidates, count).len() <= count,
        request.excluded_cluster_ids@.len() == 0 ==> eligible_indices(
            request,
            candidates,
            count,
        ).len() == count,
    decreases count,
{
    if count > 0 {
        lemma_eligible_indices(request, candidates, count - 1);
        let shorter = eligible_indices(request, candidates, count - 1);
        let all = eligible_indices(request, candidates, count);
        assert forall|k: int|
            #![trigger candidates[k]]
            0 <= k < count && !request.excludes(candidates[k].cluster_id@) implies all.contains(
            k as usize,
        ) by {
            if k < count - 1 {
                assert(shorter.contains(k as usize));
                let at = choose|at: int| 0 <= at < shorter.len() && shorter[at] == k as usize;
                assert(all[at] == k as usize);
            } else {
                assert(all.last() == k as usize);
            }
        }
        assert(request.excluded_cluster_ids@.len() == 0 ==> !request.excludes(
            candidates[count - 1].cluster_id@,
        ));
    }
}

/// The positions of the candidates that a request may still go to.
pub fn eligible_candidates(
    request: &LoadBalancerRequest,
    candidates: &Vec<RoutedClusterSnapshot>,
) -> (indices: Vec<usize>)
    ensures
        indices@ == eligible_indices(*request, candidates@, candidates@.len() as int),
{
    let mut indices: Vec<usize> = Vec::new();
    let mut at: usize = 0;
    while at < candidates.len()
        invariant
            at <= candidates@.len(),
            indices@ == eligible_indices(*request, candidates@, at as int),
        decreases candidates@.len() - at,
    {
        if !request.excludes_cluster(&candidates[at].cluster_id) {
            indices.push(at);
        }
        at = at + 1;
    }
    indices
}

} // verus!
