//! Widening bands of a ranking.

use super::config::LoadBalancerRequestPolicy;
use super::measures::Measures;
use super::pulsar::{cache_room, has_cache_room, may_follow};
use super::request::{
    chosen, LoadBalancerCandidateChoice, LoadBalancerRequest, RoutedClusterSnapshot,
};
use super::score::Score;
use super::wait_and_widen::{
    capacity_left, choice_among, choose_from_candidate_indices, has_capacity, valid_positions,
    wait_and_widen_chooses_a_usable_cluster, WaitAndWidenConfig,
};
use rand::rngs::StdRng;
use vstd::arithmetic::power2::{lemma2_to64, lemma_pow2_pos, lemma_pow2_unfold, pow2};
use vstd::prelude::*;

verus! {

/// Whether the first cluster of a ranking is chosen without a look at the others: no bounds on
/// queue times are set, and the cluster may be chosen and can take another request.
pub open spec fn primary_wins(
    config: WaitAndWidenConfig,
    policy: LoadBalancerRequestPolicy,
    request: LoadBalancerRequest,
    candidates: Seq<RoutedClusterSnapshot>,
    ranking: Seq<usize>,
) -> bool {
    &&& config.queue_slo is None
    &&& ranking.len() > 0
    &&& may_follow(policy, request, candidates[ranking[0] as int])
    &&& capacity_left(candidates[ranking[0] as int], config.max_queued)
}

/// Those of the given positions whose cluster has room in its cache where that counts, in their
/// order.
pub open spec fn with_room(
    policy: LoadBalancerRequestPolicy,
    request: LoadBalancerRequest,
    candidates: Seq<RoutedClusterSnapshot>,
    indices: Seq<usize>,
) -> Seq<usize>
    decreases indices.len(),
{
    if indices.len() == 0 {
        Seq::empty()
    } else {
        let rest = with_room(policy, request, candidates, indices.drop_last());
        if policy.consider_kv_free_tokens && !has_cache_room(
            request,
            candidates[indices.last() as int],
        ) {
            rest
        } else {
            rest.push(indices.last())
        }
    }
}

/// Whether a choice is one that `wait-and-widen` can make within a band: among those of the first
/// `width` clusters of a ranking that have room in their cache where that counts.
pub open spec fn choice_in_band<
    E: Fn(Score, Score, u64) -> bool,
    U: Fn(Score, Score, Score, Score) -> Option<Score>,
    L: Fn(u64, u64) -> Score,
>(
    config: WaitAndWidenConfig,
    policy: LoadBalancerRequestPolicy,
    request: LoadBalancerRequest,
    measures: Measures<E, U, L>,
    candidates: Seq<RoutedClusterSnapshot>,
    ranking: Seq<usize>,
    width: int,
    choice: Option<LoadBalancerCandidateChoice>,
) -> bool {
    let band = with_room(policy, request, candidates, ranking.take(width));
    if band.len() == 0 {
        choice is None
    } else {
        choice_among(config, request, measures, candidates, band, choice)
    }
}

/// The width of the band after one: twice as wide, at most the whole ranking.
pub open spec fn next_width(width: int, length: int) -> int {
    if 2 * width > length {
        length
    } else {
        2 * width
    }
}

/// Whether a choice is one that the bands of a ranking from a given width on can come to: what
/// the first of them gives that gives a choice, none where no band does.
pub open spec fn widening_choice<
    E: Fn(Score, Score, u64) -> bool,
    U: Fn(Score, Score, Score, Score) -> Option<Score>,
    L: Fn(u64, u64) -> Score,
>(
    config: WaitAndWidenConfig,
    policy: LoadBalancerRequestPolicy,
    request: LoadBalancerRequest,
    measures: Measures<E, U, L>,
    candidates: Seq<RoutedClusterSnapshot>,
    ranking: Seq<usize>,
    width: int,
    choice: Option<LoadBalancerCandidateChoice>,
) -> bool
    decreases ranking.len() - width,
{
    if width < 1 || width > ranking.len() {
        choice is None
    } else {
        ||| choice is Some && choice_in_band(
            config,
            policy,
            request,
            measures,
            candidates,
            ranking,
            width,
            choice,
        )
        ||| choice_in_band(
            config,
            policy,
            request,
            measures,
            candidates,
            ranking,
            width,
            None,
        ) && if width == ranking.len() {
            choice is None
        } else {
            widening_choice(
                config,
                policy,
                request,
                measures,
                candidates,
                ranking,
                next_width(width, ranking.len() as int),
                choice,
            )
        }
    }
}

/// Whether a choice is one that `pulsar-wait-and-widen` can make: the first cluster of the ranking
/// where it wins at once, else what `wait-and-widen` gives in the first band of 1, 2, 4 and so on
/// clusters of the ranking that gives a choice.
pub open spec fn banded_choice<
    E: Fn(Score, Score, u64) -> bool,
    U: Fn(Score, Score, Score, Score) -> Option<Score>,
    L: Fn(u64, u64) -> Score,
>(
    config: WaitAndWidenConfig,
    policy: LoadBalancerRequestPolicy,
    request: LoadBalancerRequest,
    measures: Measures<E, U, L>,
    candidates: Seq<RoutedClusterSnapshot>,
    ranking: Seq<usize>,
    choice: Option<LoadBalancerCandidateChoice>,
) -> bool {
    if primary_wins(config, policy, request, candidates, ranking) {
        choice == Some(chosen(ranking[0] as int))
    } else {
        widening_choice(config, policy, request, measures, candidates, ranking, 1, choice)
    }
}

pub proof fn lemma_with_room(
    policy: LoadBalancerRequestPolicy,
    request: LoadBalancerRequest,
    candidates: Seq<RoutedClusterSnapshot>,
    indices: Seq<usize>,
)
    requires
        valid_positions(indices, candidates.len() as int),
    ensures
        valid_positions(
            with_room(policy, request, candidates, indices),
            candidates.len() as int,
        ),
        forall|i: int|
            #![trigger with_room(policy, request, candidates, indices)[i]]
            0 <= i < with_room(policy, request, candidates, indices).len() ==> {
                let index = with_room(policy, request, candidates, indices)[i];
                indices.contains(index) && (policy.consider_kv_free_tokens ==> has_cache_room(
                    request,
                    candidates[index as int],
                ))
            },
        forall|i: int|
            0 <= i < indices.len() && (policy.consider_kv_free_tokens ==> has_cache_room(
                request,
                candidates[indices[i] as int],
            )) ==> with_room(policy, request, candidates, indices).contains(#[trigger] indices[i]),
    decreases indices.len(),
{
    if indices.len() > 0 {
        let shorter = indices.drop_last();
        let last = indices.last();
        let rest = with_room(policy, request, candidates, shorter);
        let all = with_room(policy, request, candidates, indices);
        lemma_with_room(policy, request, candidates, shorter);
        assert forall|i: int| 0 <= i < all.len() implies {
            let index = #[trigger] all[i];
            indices.contains(index) && index < candidates.len() && (policy.consider_kv_free_tokens
                ==> has_cache_room(request, candidates[index as int]))
        } by {
            if i < rest.len() {
                assert(all[i] == rest[i]);
                let at = choose|at: int| 0 <= at < shorter.len() && shorter[at] == rest[i];
                assert(indices[at] == rest[i]);
            } else {
                assert(indices[indices.len() - 1] == last);
            }
        }
        assert forall|i: int|
            0 <= i < indices.len() && (policy.consider_kv_free_tokens ==> has_cache_room(
                request,
                candidates[indices[i] as int],
            )) implies all.contains(#[trigger] indices[i]) by {
            if i < shorter.len() {
                assert(shorter[i] == indices[i]);
                assert(rest.contains(indices[i]));
                let at = choose|at: int| 0 <= at < rest.len() && rest[at] == indices[i];
                assert(all[at] == indices[i]);
            } else {
                assert(all.last() == indices[i]);
            }
        }
    }
}

/// The clusters of a band.
fn band(
    policy: &LoadBalancerRequestPolicy,
    request: &LoadBalancerRequest,
    candidates: &Vec<RoutedClusterSnapshot>,
    ranking: &Vec<usize>,
    width: usize,
) -> (indices: Vec<usize>)
    requires
        valid_positions(ranking@, candidates@.len() as int),
        width <= ranking@.len(),
    ensures
        indices@ == with_room(*policy, *request, candidates@, ranking@.take(width as int)),
{
    let mut indices: Vec<usize> = Vec::new();
    let mut at: usize = 0;
    assert(ranking@.take(0) =~= Seq::<usize>::empty());
    while at < width
        invariant
            at <= width <= ranking@.len(),
            valid_positions(ranking@, candidates@.len() as int),
            indices@ == with_room(*policy, *request, candidates@, ranking@.take(at as int)),
        decreases width - at,
    {
        let index: usize = ranking[at];
        assert(ranking@.take(at + 1).drop_last() =~= ranking@.take(at as int));
        if !policy.consider_kv_free_tokens || cache_room(request, &candidates[index]) {
            indices.push(index);
        }
        at = at + 1;
    }
    indices
}

/// Chooses from the bands of a ranking from a given width on.
fn choose_from_bands<
    E: Fn(Score, Score, u64) -> bool,
    U: Fn(Score, Score, Score, Score) -> Option<Score>,
    L: Fn(u64, u64) -> Score,
>(
    config: &WaitAndWidenConfig,
    policy: &LoadBalancerRequestPolicy,
    request: &LoadBalancerRequest,
    measures: &Measures<E, U, L>,
    candidates: &Vec<RoutedClusterSnapshot>,
    ranking: &Vec<usize>,
    width: usize,
    rng: &mut StdRng,
) -> (choice: Option<LoadBalancerCandidateChoice>)
    requires
        config.wf(),
        measures.total(),
        valid_positions(ranking@, candidates@.len() as int),
        1 <= width <= ranking@.len(),
    ensures
        widening_choice(
            *config,
            *policy,
            *request,
            *measures,
            candidates@,
            ranking@,
            width as int,
            choice,
        ),
    decreases ranking@.len() - width,
{
    let inside: Vec<usize> = band(policy, request, candidates, ranking, width);
    proof {
        lemma_with_room(*policy, *request, candidates@, ranking@.take(width as int));
    }
    let choice: Option<LoadBalancerCandidateChoice> = choose_from_candidate_indices(
        config,
        request,
        measures,
        candidates,
        &inside,
        rng,
    );
    if choice.is_some() || width == ranking.len() {
        return choice;
    }
    let wider: usize = if width > ranking.len() - width {
        ranking.len()
    } else {
        2 * width
    };
    choose_from_bands(config, policy, request, measures, candidates, ranking, wider, rng)
}

/// Chooses the first cluster of a ranking where it wins at once, else by `wait-and-widen` from
/// bands of the ranking that double in width.
pub fn choose_by_bands<
    E: Fn(Score, Score, u64) -> bool,
    U: Fn(Score, Score, Score, Score) -> Option<Score>,
    L: Fn(u64, u64) -> Score,
>(
    config: &WaitAndWidenConfig,
    policy: &LoadBalancerRequestPolicy,
    request: &LoadBalancerRequest,
    measures: &Measures<E, U, L>,
    candidates: &Vec<RoutedClusterSnapshot>,
    ranking: &Vec<usize>,
    rng: &mut StdRng,
) -> (choice: Option<LoadBalancerCandidateChoice>)
    requires
        config.wf(),
        measures.total(),
        valid_positions(ranking@, candidates@.len() as int),
    ensures
        banded_choice(*config, *policy, *request, *measures, candidates@, ranking@, choice),
{
    if ranking.len() == 0 {
        return None;
    }
    let primary: usize = ranking[0];
    let first: &RoutedClusterSnapshot = &candidates[primary];
    if config.queue_slo.is_none() && !request.excludes_cluster(&first.cluster_id) && (
    !policy.consider_kv_free_tokens || cache_room(request, first)) && has_capacity(
        first,
        config.max_queued,
    ) {
        return Some(LoadBalancerCandidateChoice::with_rank_depth_1(primary));
    }
    choose_from_bands(config, policy, request, measures, candidates, ranking, 1, rng)
}

proof fn lemma_widening_choice<
    E: Fn(Score, Score, u64) -> bool,
    U: Fn(Score, Score, Score, Score) -> Option<Score>,
    L: Fn(u64, u64) -> Score,
>(
    config: WaitAndWidenConfig,
    policy: LoadBalancerRequestPolicy,
    request: LoadBalancerRequest,
    measures: Measures<E, U, L>,
    candidates: Seq<RoutedClusterSnapshot>,
    ranking: Seq<usize>,
    width: int,
    choice: Option<LoadBalancerCandidateChoice>,
)
    requires
        config.wf(),
        valid_positions(ranking, candidates.len() as int),
        widening_choice(
            config,
            policy,
            request,
            measures,
            candidates,
            ranking,
            width,
            choice,
        ),
    ensures
        choice matches Some(made) ==> {
            &&& ranking.contains(made.candidate_index)
            &&& may_follow(policy, request, candidates[made.candidate_index as int])
            &&& capacity_left(candidates[made.candidate_index as int], config.max_queued)
        },
    decreases ranking.len() - width,
{
    if choice is Some {
        let made = choice->0;
        let front = ranking.take(width);
        let inside = with_room(policy, request, candidates, front);
        if choice_in_band(
            config,
            policy,
            request,
            measures,
            candidates,
            ranking,
            width,
            choice,
        ) {
            lemma_with_room(policy, request, candidates, front);
            wait_and_widen_chooses_a_usable_cluster(
                config,
                request,
                measures,
                candidates,
                inside,
                choice,
            );
            let at = choose|at: int| 0 <= at < inside.len() && inside[at] == made.candidate_index;
            assert(front.contains(inside[at]));
            let place = choose|place: int|
                0 <= place < front.len() && front[place] == made.candidate_index;
            assert(ranking[place] == made.candidate_index);
        } else {
            lemma_widening_choice(
                config,
                policy,
                request,
                measures,
                candidates,
                ranking,
                next_width(width, ranking.len() as int),
                choice,
            );
        }
    }
}

/// A cluster chosen from the bands of a ranking is one of the ranking; the request did not fail on
/// it, it has room in its cache where that counts, and it can take another request.
pub proof fn bands_choose_a_usable_cluster<
    E: Fn(Score, Score, u64) -> bool,
    U: Fn(Score, Score, Score, Score) -> Option<Score>,
    L: Fn(u64, u64) -> Score,
>(
    config: WaitAndWidenConfig,
    policy: LoadBalancerRequestPolicy,
    request: LoadBalancerRequest,
    measures: Measures<E, U, L>,
    candidates: Seq<RoutedClusterSnapshot>,
    ranking: Seq<usize>,
    choice: Option<LoadBalancerCandidateChoice>,
)
    requires
        config.wf(),
        valid_positions(ranking, candidates.len() as int),
        banded_choice(config, policy, request, measures, candidates, ranking, choice),
    ensures
        choice matches Some(made) ==> {
            &&& ranking.contains(made.candidate_index)
            &&& made.candidate_index < candidates.len()
            &&& may_follow(policy, request, candidates[made.candidate_index as int])
            &&& capacity_left(candidates[made.candidate_index as int], config.max_queued)
        },
{
    if primary_wins(config, policy, request, candidates, ranking) {
        assert(ranking.contains(ranking[0]));
    } else {
        lemma_widening_choice(
            config,
            policy,
            request,
            measures,
            candidates,
            ranking,
            1,
            choice,
        );
    }
}

/// Without bounds on queue times the first cluster of a ranking wins at once if the request did not
/// fail on it, it has room in its cache where that counts, and it can take another request,
/// whatever the other clusters have to offer.
pub proof fn usable_primary_wins_without_queue_bounds<
    E: Fn(Score, Score, u64) -> bool,
    U: Fn(Score, Score, Score, Score) -> Option<Score>,
    L: Fn(u64, u64) -> Score,
>(
    config: WaitAndWidenConfig,
    policy: LoadBalancerRequestPolicy,
    request: LoadBalancerRequest,
    measures: Measures<E, U, L>,
    candidates: Seq<RoutedClusterSnapshot>,
    ranking: Seq<usize>,
    choice: Option<LoadBalancerCandidateChoice>,
)
    requires
        config.queue_slo is None,
        ranking.len() > 0,
        !request.excludes(candidates[ranking[0] as int].cluster_id@),
        policy.consider_kv_free_tokens ==> has_cache_room(
            request,
            candidates[ranking[0] as int],
        ),
        capacity_left(candidates[ranking[0] as int], config.max_queued),
        banded_choice(config, policy, request, measures, candidates, ranking, choice),
    ensures
        choice == Some(
            LoadBalancerCandidateChoice {
                candidate_index: ranking[0],
                rank_depth: 1,
                selected_after_kv_free_tokens_skip: false,
            },
        ),
{
}

/// How many clusters of a ranking the bands have: 1, 2, 4 and so on, at most all.
pub open spec fn band_width(number: nat, length: int) -> int {
    if pow2(number) < length {
        pow2(number) as int
    } else {
        length
    }
}

proof fn lemma_band_width(number: nat, length: int)
    requires
        length > 0,
    ensures
        1 <= band_width(number, length) <= length,
        band_width(number + 1, length) == next_width(band_width(number, length), length),
{
    lemma_pow2_pos(number);
    lemma_pow2_unfold(number + 1);
}

proof fn lemma_first_band_from<
    E: Fn(Score, Score, u64) -> bool,
    U: Fn(Score, Score, Score, Score) -> Option<Score>,
    L: Fn(u64, u64) -> Score,
>(
    config: WaitAndWidenConfig,
    policy: LoadBalancerRequestPolicy,
    request: LoadBalancerRequest,
    measures: Measures<E, U, L>,
    candidates: Seq<RoutedClusterSnapshot>,
    ranking: Seq<usize>,
    number: nat,
    made: LoadBalancerCandidateChoice,
) -> (at: nat)
    requires
        ranking.len() > 0,
        widening_choice(
            config,
            policy,
            request,
            measures,
            candidates,
            ranking,
            band_width(number, ranking.len() as int),
            Some(made),
        ),
    ensures
        number <= at,
        choice_in_band(
            config,
            policy,
            request,
            measures,
            candidates,
            ranking,
            band_width(at, ranking.len() as int),
            Some(made),
        ),
        forall|earlier: nat|
            number <= earlier < at ==> choice_in_band(
                config,
                policy,
                request,
                measures,
                candidates,
                ranking,
                #[trigger] band_width(earlier, ranking.len() as int),
                None,
            ),
    decreases ranking.len() - band_width(number, ranking.len() as int),
{
    let length = ranking.len() as int;
    lemma_band_width(number, length);
    if choice_in_band(
        config,
        policy,
        request,
        measures,
        candidates,
        ranking,
        band_width(number, length),
        Some(made),
    ) {
        number
    } else {
        lemma_first_band_from(
            config,
            policy,
            request,
            measures,
            candidates,
            ranking,
            number + 1,
            made,
        )
    }
}

/// Where the first cluster of a ranking does not win at once, the first band that gives a choice
/// decides: a choice is what `wait-and-widen` gives in a band of 1, 2, 4 and so on clusters, and
/// it gives none in the narrower ones.
pub proof fn first_band_with_a_choice_decides<
    E: Fn(Score, Score, u64) -> bool,
    U: Fn(Score, Score, Score, Score) -> Option<Score>,
    L: Fn(u64, u64) -> Score,
>(
    config: WaitAndWidenConfig,
    policy: LoadBalancerRequestPolicy,
    request: LoadBalancerRequest,
    measures: Measures<E, U, L>,
    candidates: Seq<RoutedClusterSnapshot>,
    ranking: Seq<usize>,
    made: LoadBalancerCandidateChoice,
)
    requires
        !primary_wins(config, policy, request, candidates, ranking),
        banded_choice(config, policy, request, measures, candidates, ranking, Some(made)),
    ensures
        exists|at: nat|
            choice_in_band(
                config,
                policy,
                request,
                measures,
                candidates,
                ranking,
                #[trigger] band_width(at, ranking.len() as int),
                Some(made),
            ) && forall|earlier: nat|
                earlier < at ==> choice_in_band(
                    config,
                    policy,
                    request,
                    measures,
                    candidates,
                    ranking,
                    #[trigger] band_width(earlier, ranking.len() as int),
                    None,
                ),
{
    lemma2_to64();
    assert(ranking.len() > 0);
    assert(band_width(0, ranking.len() as int) == 1);
    let at = lemma_first_band_from(
        config,
        policy,
        request,
        measures,
        candidates,
        ranking,
        0,
        made,
    );
    assert(band_width(at, ranking.len() as int) >= 0);
}

/// Where `pulsar-wait-and-widen` chooses no cluster, no band gives a choice, from the first cluster
/// of the ranking to the whole of it.
pub proof fn no_choice_means_no_band_gives_one<
    E: Fn(Score, Score, u64) -> bool,
    U: Fn(Score, Score, Score, Score) -> Option<Score>,
    L: Fn(u64, u64) -> Score,
>(
    config: WaitAndWidenConfig,
    policy: LoadBalancerRequestPolicy,
    request: LoadBalancerRequest,
    measures: Measures<E, U, L>,
    candidates: Seq<RoutedClusterSnapshot>,
    ranking: Seq<usize>,
    number: nat,
)
    requires
        ranking.len() > 0,
        banded_choice(config, policy, request, measures, candidates, ranking, None),
    ensures
        choice_in_band(
            config,
            policy,
            request,
            measures,
            candidates,
            ranking,
            band_width(number, ranking.len() as int),
            None,
        ),
{
    lemma2_to64();
    assert(band_width(0, ranking.len() as int) == 1);
    lemma_no_band_from(config, policy, request, measures, candidates, ranking, 0, number);
}

proof fn lemma_no_band_from<
    E: Fn(Score, Score, u64) -> bool,
    U: Fn(Score, Score, Score, Score) -> Option<Score>,
    L: Fn(u64, u64) -> Score,
>(
    config: WaitAndWidenConfig,
    policy: LoadBalancerRequestPolicy,
    request: LoadBalancerRequest,
    measures: Measures<E, U, L>,
    candidates: Seq<RoutedClusterSnapshot>,
    ranking: Seq<usize>,
    from: nat,
    number: nat,
)
    requires
        ranking.len() > 0,
        from <= number,
        widening_choice(
            config,
            policy,
            request,
            measures,
            candidates,
            ranking,
            band_width(from, ranking.len() as int),
            None,
        ),
    ensures
        choice_in_band(
            config,
            policy,
            request,
            measures,
            candidates,
            ranking,
            band_width(number, ranking.len() as int),
            None,
        ),
    decreases number - from,
{
    lemma_band_width(from, ranking.len() as int);
    if from < number {
        lemma_no_band_from(config, policy, request, measures, candidates, ranking, from + 1, number);
    }
}

} // verus!
