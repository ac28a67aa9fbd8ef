//! `power-of-n`: the least loaded of a few clusters drawn at random.

use super::comparator::ClusterComparator;
use super::random::{
    is_sample, new_rng, random_index, random_ratio, random_sample, sample_size,
};
use super::request::{
    chosen, eligible_candidates, eligible_indices, lemma_eligible_indices,
    LoadBalancerCandidateChoice, LoadBalancerRequest, RoutedClusterSnapshot,
};
use super::score::{order_of, Order};
use rand::rngs::StdRng;
use vstd::prelude::*;

verus! {

/// The most clusters that may be sampled.
pub const MAX_POWER_OF_N_SAMPLE_COUNT: usize = 64;

/// The positions of sampled candidates.
pub struct CandidateSample {
    indices: Vec<usize>,
}

impl View for CandidateSample {
    type V = Seq<usize>;

    closed spec fn view(&self) -> Seq<usize> {
        self.indices@
    }
}

impl CandidateSample {
    /// A sample of nothing.
    pub fn new() -> (sample: Self)
        ensures
            sample@ == Seq::<usize>::empty(),
    {
        CandidateSample { indices: Vec::new() }
    }

    /// The positions.
    pub fn as_slice(&self) -> (indices: &[usize])
        ensures
            indices@ == self@,
    {
        self.indices.as_slice()
    }

    /// The number of positions.
    pub fn len(&self) -> (length: usize)
        ensures
            length == self@.len(),
    {
        self.indices.len()
    }
}

/// Two different numbers made of two draws: the second draw skips the first number.
pub open spec fn pair_drawn(first: usize, second: usize) -> (usize, usize) {
    (
        first,
        if second >= first {
            (second + 1) as usize
        } else {
            second
        },
    )
}

/// Two different numbers made of two draws: the second draw skips the first number.
pub fn distinct_pair(first: usize, second: usize) -> (pair: (usize, usize))
    requires
        second < usize::MAX,
    ensures
        pair == pair_drawn(first, second),
{
    if second >= first {
        (first, second + 1)
    } else {
        (first, second)
    }
}

/// Draws two different numbers below `len`: the first of all, the second of one less.
pub fn sample_distinct_pair(len: usize, rng: &mut StdRng) -> (pair: (usize, usize))
    requires
        len >= 2,
    ensures
        exists|first: usize, second: usize|
            first < len && second < len - 1 && pair == #[trigger] pair_drawn(first, second),
        pair.0 < len,
        pair.1 < len,
        pair.0 != pair.1,
{
    let first: usize = random_index(rng, 0, len);
    let second: usize = random_index(rng, 0, len - 1);
    distinct_pair(first, second)
}

/// The numbers below `count`.
fn all_indices(count: usize) -> (indices: Vec<usize>)
    ensures
        indices@ == Seq::new(count as nat, |i: int| i as usize),
{
    let mut indices: Vec<usize> = Vec::new();
    let mut at: usize = 0;
    while at < count
        invariant
            at <= count,
            indices@ == Seq::new(at as nat, |i: int| i as usize),
        decreases count - at,
    {
        indices.push(at);
        at = at + 1;
    }
    indices
}

/// Without exclusions the eligible positions are all positions.
proof fn lemma_no_exclusions(
    request: LoadBalancerRequest,
    candidates: Seq<RoutedClusterSnapshot>,
    count: int,
)
    requires
        request.excluded_cluster_ids@.len() == 0,
        0 <= count <= candidates.len() <= usize::MAX,
    ensures
        eligible_indices(request, candidates, count) == Seq::new(
            count as nat,
            |i: int| i as usize,
        ),
    decreases count,
{
    if count > 0 {
        lemma_no_exclusions(request, candidates, count - 1);
    }
    assert(eligible_indices(request, candidates, count) =~= Seq::new(
        count as nat,
        |i: int| i as usize,
    ));
}

/// Draws up to `sample_count` different candidates of those that the request may still go to.
pub fn sample_candidates(
    request: &LoadBalancerRequest,
    candidates: &Vec<RoutedClusterSnapshot>,
    sample_count: usize,
    rng: &mut StdRng,
) -> (sample: CandidateSample)
    ensures
        is_sample(
            eligible_indices(*request, candidates@, candidates@.len() as int),
            sample_count as int,
            sample@,
        ),
{
    let count: usize = candidates.len();
    proof {
        lemma_eligible_indices(*request, candidates@, count as int);
    }
    if count == 0 {
        return CandidateSample::new();
    }
    if request.has_excluded_clusters() {
        let eligible: Vec<usize> = eligible_candidates(request, candidates);
        let amount: usize = if sample_count < eligible.len() {
            sample_count
        } else {
            eligible.len()
        };
        return CandidateSample { indices: random_sample(rng, &eligible, amount) };
    }
    let ghost eligible = eligible_indices(*request, candidates@, count as int);
    proof {
        lemma_no_exclusions(*request, candidates@, count as int);
        assert forall|k: usize| k < count implies #[trigger] eligible.contains(k) by {
            assert(eligible[k as int] == k);
        }
    }
    let length: usize = if sample_count < count { sample_count } else { count };
    let mut indices: Vec<usize> = Vec::new();
    if length == 1 {
        indices.push(random_index(rng, 0, count));
    } else if length == 2 {
        let (first, second) = sample_distinct_pair(count, rng);
        indices.push(first);
        indices.push(second);
    } else if length == count {
        indices = all_indices(count);
    } else if length > 2 {
        let all: Vec<usize> = all_indices(count);
        indices = random_sample(rng, &all, length);
    }
    CandidateSample { indices }
}

/// The candidate that wins when the sampled positions are gone through in order: a lesser one
/// takes over, and an equal one takes over where the draw at its place says so.
pub open spec fn least_loaded(
    candidates: Seq<RoutedClusterSnapshot>,
    sampled: Seq<usize>,
    comparator: ClusterComparator,
    draws: Seq<bool>,
) -> usize
    decreases sampled.len(),
{
    if sampled.len() <= 1 {
        sampled[0]
    } else {
        let best = least_loaded(candidates, sampled.drop_last(), comparator, draws);
        let last = sampled.last();
        match order_of(
            comparator.key(candidates[last as int]),
            comparator.key(candidates[best as int]),
        ) {
            Order::Less => last,
            Order::Equal => if draws[sampled.len() - 1] {
                last
            } else {
                best
            },
            Order::Greater => best,
        }
    }
}

/// Whatever is drawn, the winner is one of the sampled candidates, and none of them is less
/// loaded.
pub proof fn least_loaded_is_a_least_sampled_candidate(
    candidates: Seq<RoutedClusterSnapshot>,
    sampled: Seq<usize>,
    comparator: ClusterComparator,
    draws: Seq<bool>,
)
    requires
        sampled.len() > 0,
    ensures
        sampled.contains(least_loaded(candidates, sampled, comparator, draws)),
        forall|i: int|
            0 <= i < sampled.len() ==> comparator.key(
                candidates[least_loaded(candidates, sampled, comparator, draws) as int],
            ) <= comparator.key(candidates[#[trigger] sampled[i] as int]),
    decreases sampled.len(),
{
    if sampled.len() == 1 {
        assert(sampled[0] == least_loaded(candidates, sampled, comparator, draws));
    } else {
        let shorter = sampled.drop_last();
        least_loaded_is_a_least_sampled_candidate(candidates, shorter, comparator, draws);
        let best = least_loaded(candidates, shorter, comparator, draws);
        let at = choose|at: int| 0 <= at < shorter.len() && shorter[at] == best;
        assert(sampled[at] == best);
        assert(sampled[sampled.len() - 1] == sampled.last());
        assert forall|i: int| 0 <= i < sampled.len() implies comparator.key(
            candidates[least_loaded(candidates, sampled, comparator, draws) as int],
        ) <= comparator.key(candidates[#[trigger] sampled[i] as int]) by {
            if i < shorter.len() {
                assert(shorter[i] == sampled[i]);
            }
        }
    }
}

/// Draws that were not used do not matter.
proof fn lemma_draws_agree(
    candidates: Seq<RoutedClusterSnapshot>,
    sampled: Seq<usize>,
    comparator: ClusterComparator,
    draws: Seq<bool>,
    others: Seq<bool>,
)
    requires
        draws.len() >= sampled.len(),
        others.len() >= sampled.len(),
        forall|i: int| 0 <= i < sampled.len() ==> draws[i] == others[i],
    ensures
        least_loaded(candidates, sampled, comparator, draws) == least_loaded(
            candidates,
            sampled,
            comparator,
            others,
        ),
    decreases sampled.len(),
{
    if sampled.len() > 1 {
        lemma_draws_agree(candidates, sampled.drop_last(), comparator, draws, others);
    }
}

/// The candidate that wins for given draws.
pub fn least_loaded_with_draws(
    candidates: &Vec<RoutedClusterSnapshot>,
    sampled: &[usize],
    comparator: ClusterComparator,
    draws: &Vec<bool>,
) -> (winner: Option<usize>)
    requires
        draws@.len() == sampled@.len(),
        forall|i: int| 0 <= i < sampled@.len() ==> #[trigger] sampled@[i] < candidates@.len(),
    ensures
        winner == if sampled@.len() == 0 {
            None
        } else {
            Some(least_loaded(candidates@, sampled@, comparator, draws@))
        },
{
    if sampled.len() == 0 {
        return None;
    }
    let mut selected: usize = sampled[0];
    let mut at: usize = 1;
    while at < sampled.len()
        invariant
            1 <= at <= sampled@.len() == draws@.len(),
            forall|i: int| 0 <= i < sampled@.len() ==> #[trigger] sampled@[i] < candidates@.len(),
            selected < candidates@.len(),
            selected == least_loaded(candidates@, sampled@.take(at as int), comparator, draws@),
        decreases sampled@.len() - at,
    {
        let candidate: usize = sampled[at];
        assert(sampled@.take(at + 1).drop_last() =~= sampled@.take(at as int));
        match comparator.compare(&candidates[candidate], &candidates[selected]) {
            Order::Less => {
                selected = candidate;
            },
            Order::Equal => {
                if draws[at] {
                    selected = candidate;
                }
            },
            Order::Greater => {},
        }
        at = at + 1;
    }
    assert(sampled@.take(at as int) =~= sampled@);
    Some(selected)
}

/// The least loaded of the sampled candidates. Of several it takes each with equal chance: the
/// second of equals wins in one case of two, the third in one of three, and so on.
pub fn choose_least_loaded(
    candidates: &Vec<RoutedClusterSnapshot>,
    sampled: &[usize],
    comparator: ClusterComparator,
    rng: &mut StdRng,
) -> (choice: Option<LoadBalancerCandidateChoice>)
    requires
        sampled@.len() <= u32::MAX,
        forall|i: int| 0 <= i < sampled@.len() ==> #[trigger] sampled@[i] < candidates@.len(),
    ensures
        sampled@.len() == 0 ==> choice is None,
        sampled@.len() > 0 ==> exists|draws: Seq<bool>|
            draws.len() == sampled@.len() && choice == Some(
                chosen(#[trigger] least_loaded(candidates@, sampled@, comparator, draws) as int),
            ),
{
    if sampled.len() == 0 {
        return None;
    }
    let mut selected: usize = sampled[0];
    let mut tied_best_count: u32 = 1;
    let mut at: usize = 1;
    let ghost mut draws: Seq<bool> = seq![false];
    while at < sampled.len()
        invariant
            1 <= at <= sampled@.len() <= u32::MAX,
            forall|i: int| 0 <= i < sampled@.len() ==> #[trigger] sampled@[i] < candidates@.len(),
            selected < candidates@.len(),
            1 <= tied_best_count <= at,
            draws.len() == at,
            selected == least_loaded(candidates@, sampled@.take(at as int), comparator, draws),
        decreases sampled@.len() - at,
    {
        let candidate: usize = sampled[at];
        let ghost earlier = draws;
        let mut drawn: bool = false;
        let ghost best = selected;
        match comparator.compare(&candidates[candidate], &candidates[selected]) {
            Order::Less => {
                selected = candidate;
                tied_best_count = 1;
            },
            Order::Equal => {
                tied_best_count = tied_best_count + 1;
                drawn = random_ratio(rng, 1, tied_best_count);
                if drawn {
                    selected = candidate;
                }
            },
            Order::Greater => {},
        }
        proof {
            draws = earlier.push(drawn);
            let longer = sampled@.take(at + 1);
            assert(longer.drop_last() =~= sampled@.take(at as int));
            lemma_draws_agree(candidates@, sampled@.take(at as int), comparator, earlier, draws);
        }
        at = at + 1;
    }
    assert(sampled@.take(at as int) =~= sampled@);
    Some(LoadBalancerCandidateChoice::with_rank_depth_1(selected))
}

/// Chooses the least loaded of a few clusters drawn at random.
#[derive(Clone, Copy, Debug)]
pub struct PowerOfNLoadBalancer {
    pub sample_count: usize,
    pub comparator: ClusterComparator,
}

/// Whether a choice is one that `power-of-n` can make: none where the request may go nowhere,
/// else the least loaded of a sample of the candidates that it may go to.
pub open spec fn power_of_n_choice(
    balancer: PowerOfNLoadBalancer,
    request: LoadBalancerRequest,
    candidates: Seq<RoutedClusterSnapshot>,
    choice: Option<LoadBalancerCandidateChoice>,
) -> bool {
    let eligible = eligible_indices(request, candidates, candidates.len() as int);
    if eligible.len() == 0 {
        choice is None
    } else {
        exists|sample: Seq<usize>, draws: Seq<bool>|
            is_sample(eligible, balancer.sample_count as int, sample) && draws.len() == sample.len()
                && choice == Some(
                chosen(
                    #[trigger] least_loaded(candidates, sample, balancer.comparator, draws) as int,
                ),
            )
    }
}

impl PowerOfNLoadBalancer {
    /// A sample has at least one candidate and at most `MAX_POWER_OF_N_SAMPLE_COUNT`.
    pub open spec fn wf(&self) -> bool {
        1 <= self.sample_count <= MAX_POWER_OF_N_SAMPLE_COUNT
    }

    /// How many clusters are compared: as many as a sample has, at most all that the request may
    /// go to.
    pub fn effective_sample_count(
        &self,
        request: &LoadBalancerRequest,
        candidates: &Vec<RoutedClusterSnapshot>,
    ) -> (size: usize)
        ensures
            size == sample_size(
                self.sample_count as int,
                eligible_indices(*request, candidates@, candidates@.len() as int).len() as int,
            ),
    {
        let eligible: usize = eligible_candidates(request, candidates).len();
        if self.sample_count <= eligible {
            self.sample_count
        } else {
            eligible
        }
    }

    /// Chooses a cluster with draws from `rng`.
    pub fn choose_candidate_with_rng(
        &self,
        request: &LoadBalancerRequest,
        candidates: &Vec<RoutedClusterSnapshot>,
        rng: &mut StdRng,
    ) -> (choice: Option<LoadBalancerCandidateChoice>)
        requires
            self.wf(),
        ensures
            power_of_n_choice(*self, *request, candidates@, choice),
    {
        let sampled: CandidateSample = sample_candidates(
            request,
            candidates,
            self.sample_count,
            rng,
        );
        proof {
            let eligible = eligible_indices(*request, candidates@, candidates@.len() as int);
            let length = candidates.len();
            lemma_eligible_indices(*request, candidates@, candidates@.len() as int);
            assert forall|i: int| 0 <= i < sampled@.len() implies #[trigger] sampled@[i]
                < candidates@.len() by {
                assert(eligible.contains(sampled@[i]));
            }
        }
        choose_least_loaded(candidates, sampled.as_slice(), self.comparator, rng)
    }

    /// Chooses a cluster.
    pub fn choose_candidate(
        &self,
        request: &LoadBalancerRequest,
        candidates: &Vec<RoutedClusterSnapshot>,
    ) -> (choice: Option<LoadBalancerCandidateChoice>)
        requires
            self.wf(),
        ensures
            power_of_n_choice(*self, *request, candidates@, choice),
    {
        let mut rng: StdRng = new_rng();
        self.choose_candidate_with_rng(request, candidates, &mut rng)
    }
}

/// `power-of-n` chooses a cluster exactly when the request may go to one, never one that it
/// failed on, and, where the sample takes in all that it may go to, one that no other of them
/// beats.
pub proof fn power_of_n_chooses_an_eligible_cluster(
    balancer: PowerOfNLoadBalancer,
    request: LoadBalancerRequest,
    candidates: Seq<RoutedClusterSnapshot>,
    choice: Option<LoadBalancerCandidateChoice>,
)
    requires
        balancer.wf(),
        candidates.len() <= usize::MAX,
        power_of_n_choice(balancer, request, candidates, choice),
    ensures
        choice is Some <==> exists|k: int|
            0 <= k < candidates.len() && !request.excludes(
                (#[trigger] candidates[k]).cluster_id@,
            ),
        choice matches Some(made) ==> {
            &&& made.candidate_index < candidates.len()
            &&& !request.excludes(candidates[made.candidate_index as int].cluster_id@)
            &&& made.rank_depth == 1
            &&& balancer.sample_count >= eligible_indices(
                request,
                candidates,
                candidates.len() as int,
            ).len() ==> forall|k: int|
                0 <= k < candidates.len() && !request.excludes(candidates[k].cluster_id@)
                    ==> balancer.comparator.key(candidates[made.candidate_index as int])
                    <= balancer.comparator.key(#[trigger] candidates[k])
        },
{
    let count = candidates.len() as int;
    let eligible = eligible_indices(request, candidates, count);
    lemma_eligible_indices(request, candidates, count);
    if eligible.len() == 0 {
        assert forall|k: int| 0 <= k < count implies request.excludes(
            (#[trigger] candidates[k]).cluster_id@,
        ) by {
            if !request.excludes(candidates[k].cluster_id@) {
                assert(eligible.contains(k as usize));
            }
        }
    } else {
        assert(!request.excludes(candidates[eligible[0] as int].cluster_id@));
        let (sample, draws) = choose|sample: Seq<usize>, draws: Seq<bool>|
            is_sample(eligible, balancer.sample_count as int, sample) && draws.len() == sample.len()
                && choice == Some(
                chosen(
                    #[trigger] least_loaded(candidates, sample, balancer.comparator, draws) as int,
                ),
            );
        let winner = least_loaded(candidates, sample, balancer.comparator, draws);
        least_loaded_is_a_least_sampled_candidate(candidates, sample, balancer.comparator, draws);
        assert(eligible.contains(winner));
        if balancer.sample_count >= eligible.len() {
            lemma_full_sample(eligible, balancer.sample_count as int, sample);
            assert forall|k: int|
                0 <= k < count && !request.excludes(
                    candidates[k].cluster_id@,
                ) implies balancer.comparator.key(candidates[winner as int])
                <= balancer.comparator.key(#[trigger] candidates[k]) by {
                assert(eligible.contains(k as usize));
                assert(sample.contains(k as usize));
                let at = choose|at: int| 0 <= at < sample.len() && sample[at] == k as usize;
                assert(sample[at] == k as usize);
            }
        }
    }
}

/// A sample as large as what it is drawn from has everything in it.
pub proof fn lemma_full_sample(items: Seq<usize>, amount: int, sample: Seq<usize>)
    requires
        items.no_duplicates(),
        items.len() <= amount,
        is_sample(items, amount, sample),
    ensures
        forall|x: usize| items.contains(x) ==> #[trigger] sample.contains(x),
{
    items.unique_seq_to_set();
    sample.unique_seq_to_set();
    assert(sample.to_set().subset_of(items.to_set()));
    vstd::set_lib::lemma_subset_equality(sample.to_set(), items.to_set());
    assert forall|x: usize| items.contains(x) implies #[trigger] sample.contains(x) by {
        assert(items.to_set().contains(x));
        assert(sample.to_set().contains(x));
    }
}

} // verus!
