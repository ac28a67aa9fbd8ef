//! The first usable cluster of a ranking.

use super::config::LoadBalancerRequestPolicy;
use super::request::{LoadBalancerCandidateChoice, LoadBalancerRequest, RoutedClusterSnapshot};
use vstd::prelude::*;

verus! {

/// Whether a cluster is known to have room in its cache for the input of a request: both the size
/// of the input and that of the cache have to be known.
pub open spec fn has_cache_room(
    request: LoadBalancerRequest,
    candidate: RoutedClusterSnapshot,
) -> bool {
    &&& request.input_tokens is Some
    &&& candidate.stats.kv_cache_capacity_tokens > 0
    &&& candidate.stats.kv_cache_free_tokens >= request.input_tokens->0
}

/// Whether a ranked cluster may be chosen: the request did not fail on it, and it has room in its
/// cache where that counts.
pub open spec fn may_follow(
    policy: LoadBalancerRequestPolicy,
    request: LoadBalancerRequest,
    candidate: RoutedClusterSnapshot,
) -> bool {
    !request.excludes(candidate.cluster_id@) && (policy.consider_kv_free_tokens ==> has_cache_room(
        request,
        candidate,
    ))
}

/// Whether a ranked cluster is passed over only for want of room in its cache.
pub open spec fn lacks_room_only(
    policy: LoadBalancerRequestPolicy,
    request: LoadBalancerRequest,
    candidate: RoutedClusterSnapshot,
) -> bool {
    !request.excludes(candidate.cluster_id@) && policy.consider_kv_free_tokens && !has_cache_room(
        request,
        candidate,
    )
}

/// The first place of a ranking, from `from` on, with a cluster that may be chosen, or the length
/// of the ranking.
pub open spec fn first_usable(
    policy: LoadBalancerRequestPolicy,
    request: LoadBalancerRequest,
    candidates: Seq<RoutedClusterSnapshot>,
    ranking: Seq<usize>,
    from: int,
) -> int
    decreases ranking.len() - from,
{
    if from >= ranking.len() || may_follow(policy, request, candidates[ranking[from] as int]) {
        from
    } else {
        first_usable(policy, request, candidates, ranking, from + 1)
    }
}

/// The choice that a ranking gives: its first cluster that may be chosen, with its place in the
/// ranking, and whether one above it was passed over for want of room in its cache.
pub open spec fn ranked_choice(
    policy: LoadBalancerRequestPolicy,
    request: LoadBalancerRequest,
    candidates: Seq<RoutedClusterSnapshot>,
    ranking: Seq<usize>,
) -> Option<LoadBalancerCandidateChoice> {
    let at = first_usable(policy, request, candidates, ranking, 0);
    if at >= ranking.len() {
        None
    } else {
        Some(
            LoadBalancerCandidateChoice {
                candidate_index: ranking[at],
                rank_depth: (at + 1) as usize,
                selected_after_kv_free_tokens_skip: exists|i: int|
                    0 <= i < at && lacks_room_only(
                        policy,
                        request,
                        candidates[(#[trigger] ranking[i]) as int],
                    ),
            },
        )
    }
}

/// Whether a cluster is known to have room in its cache for the input of a request.
pub fn cache_room(
    request: &LoadBalancerRequest,
    candidate: &RoutedClusterSnapshot,
) -> (room: bool)
    ensures
        room == has_cache_room(*request, *candidate),
{
    match request.input_tokens {
        None => false,
        Some(tokens) => candidate.stats.kv_cache_capacity_tokens > 0
            && candidate.stats.kv_cache_free_tokens >= tokens,
    }
}

/// Walks a ranking, best cluster first, to the first cluster that the request did not fail on and
/// that has room in its cache where that counts.
pub fn choose_by_rank(
    policy: &LoadBalancerRequestPolicy,
    request: &LoadBalancerRequest,
    candidates: &Vec<RoutedClusterSnapshot>,
    ranking: &Vec<usize>,
) -> (choice: Option<LoadBalancerCandidateChoice>)
    requires
        forall|i: int| 0 <= i < ranking@.len() ==> #[trigger] ranking@[i] < candidates@.len(),
    ensures
        choice == ranked_choice(*policy, *request, candidates@, ranking@),
{
    let mut skipped: bool = false;
    let mut at: usize = 0;
    while at < ranking.len()
        invariant
            at <= ranking@.len(),
            forall|i: int| 0 <= i < ranking@.len() ==> #[trigger] ranking@[i] < candidates@.len(),
            first_usable(*policy, *request, candidates@, ranking@, 0) == first_usable(
                *policy,
                *request,
                candidates@,
                ranking@,
                at as int,
            ),
            skipped == exists|i: int|
                0 <= i < at && lacks_room_only(
                    *policy,
                    *request,
                    candidates@[(#[trigger] ranking@[i]) as int],
                ),
        decreases ranking@.len() - at,
    {
        let index: usize = ranking[at];
        let candidate: &RoutedClusterSnapshot = &candidates[index];
        if !request.excludes_cluster(&candidate.cluster_id) {
            if !policy.consider_kv_free_tokens || cache_room(request, candidate) {
                return Some(
                    LoadBalancerCandidateChoice {
                        candidate_index: index,
                        rank_depth: at + 1,
                        selected_after_kv_free_tokens_skip: skipped,
                    },
                );
            }
            assert(lacks_room_only(*policy, *request, candidates@[ranking@[at as int] as int]));
            skipped = true;
        }
        at = at + 1;
    }
    None
}

proof fn lemma_first_usable(
    policy: LoadBalancerRequestPolicy,
    request: LoadBalancerRequest,
    candidates: Seq<RoutedClusterSnapshot>,
    ranking: Seq<usize>,
    from: int,
)
    requires
        0 <= from <= ranking.len(),
    ensures
        ({
            let at = first_usable(policy, request, candidates, ranking, from);
            &&& from <= at <= ranking.len()
            &&& at < ranking.len() ==> may_follow(
                policy,
                request,
                candidates[ranking[at] as int],
            )
            &&& forall|i: int|
                from <= i < at ==> !may_follow(
                    policy,
                    request,
                    candidates[(#[trigger] ranking[i]) as int],
                )
        }),
    decreases ranking.len() - from,
{
    if from < ranking.len() && !may_follow(policy, request, candidates[ranking[from] as int]) {
        lemma_first_usable(policy, request, candidates, ranking, from + 1);
    }
}

/// A ranking is followed: the cluster that is chosen may be chosen, none above it may, and where
/// none is chosen none of the ranking may.
pub proof fn ranking_is_followed(
    policy: LoadBalancerRequestPolicy,
    request: LoadBalancerRequest,
    candidates: Seq<RoutedClusterSnapshot>,
    ranking: Seq<usize>,
)
    requires
        ranking.len() <= usize::MAX,
    ensures
        match ranked_choice(policy, request, candidates, ranking) {
            Some(choice) => {
                &&& 1 <= choice.rank_depth <= ranking.len()
                &&& choice.candidate_index == ranking[choice.rank_depth - 1]
                &&& may_follow(policy, request, candidates[choice.candidate_index as int])
                &&& forall|i: int|
                    0 <= i < choice.rank_depth - 1 ==> !may_follow(
                        policy,
                        request,
                        candidates[(#[trigger] ranking[i]) as int],
                    )
                &&& choice.selected_after_kv_free_tokens_skip == exists|i: int|
                    0 <= i < choice.rank_depth - 1 && lacks_room_only(
                        policy,
                        request,
                        candidates[(#[trigger] ranking[i]) as int],
                    )
            },
            None => forall|i: int|
                0 <= i < ranking.len() ==> !may_follow(
                    policy,
                    request,
                    candidates[(#[trigger] ranking[i]) as int],
                ),
        },
{
    lemma_first_usable(policy, request, candidates, ranking, 0);
}

/// Load does not move a request off its primary cluster: unless the request failed on it or room
/// in its cache counts, the first of the ranking is chosen.
pub proof fn primary_is_kept(
    policy: LoadBalancerRequestPolicy,
    request: LoadBalancerRequest,
    candidates: Seq<RoutedClusterSnapshot>,
    ranking: Seq<usize>,
)
    requires
        ranking.len() > 0,
        !policy.consider_kv_free_tokens,
        !request.excludes(candidates[ranking[0] as int].cluster_id@),
    ensures
        ranked_choice(policy, request, candidates, ranking) == Some(
            LoadBalancerCandidateChoice {
                candidate_index: ranking[0],
                rank_depth: 1,
                selected_after_kv_free_tokens_skip: false,
            },
        ),
{
}

} // verus!
