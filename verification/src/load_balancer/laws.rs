//! What holds of every load balancer.

use super::config::{resolves_to, written_comparator, ConfigEssence, LoadBalancerAlgorithmSettings};
use super::measures::Measures;
use super::power_of_n::{power_of_n_chooses_an_eligible_cluster, PowerOfNLoadBalancer};
use super::pulsar::ranking_is_followed;
use super::pulsar_wait_and_widen::{banded_choice, bands_choose_a_usable_cluster};
use super::request::{
    eligible_indices, lemma_eligible_indices, LoadBalancerCandidateChoice, LoadBalancerRequest,
    RoutedClusterSnapshot,
};
use super::score::Score;
use super::target_state::{balances, settings_error, RoutingHints};
use super::wait_and_widen::{
    affinity_positions, all_positions, choice_among, wait_and_widen_choice,
    wait_and_widen_chooses_a_usable_cluster, WaitAndWidenConfig,
};
use vstd::prelude::*;

verus! {

/// Whatever the algorithm, a chosen cluster is one of the candidates, and never one that the
/// request failed on.
pub proof fn chosen_candidate_exists<
    E: Fn(Score, Score, u64) -> bool,
    U: Fn(Score, Score, Score, Score) -> Option<Score>,
    L: Fn(u64, u64) -> Score,
>(
    essence: ConfigEssence,
    turn: usize,
    request: LoadBalancerRequest,
    candidates: Seq<RoutedClusterSnapshot>,
    hints: RoutingHints,
    measures: Measures<E, U, L>,
    choice: Option<LoadBalancerCandidateChoice>,
    turn_after: usize,
)
    requires
        settings_error(essence.settings) is None,
        candidates.len() <= usize::MAX,
        hints.wf(candidates.len() as int),
        balances(
            essence,
            turn,
            request,
            candidates,
            hints,
            measures,
            choice,
            turn_after,
        ),
    ensures
        choice matches Some(made) ==> {
            &&& made.candidate_index < candidates.len()
            &&& !request.excludes(candidates[made.candidate_index as int].cluster_id@)
        },
{
    let count = candidates.len() as int;
    let eligible = eligible_indices(request, candidates, count);
    lemma_eligible_indices(request, candidates, count);
    if choice is Some {
        match essence.settings {
            LoadBalancerAlgorithmSettings::PowerOfN(config) => {
                let balancer = PowerOfNLoadBalancer {
                    sample_count: config.sample_count,
                    comparator: super::config::written_comparator(config.comparator),
                };
                power_of_n_chooses_an_eligible_cluster(balancer, request, candidates, choice);
            },
            LoadBalancerAlgorithmSettings::WaitAndWiden(written) => {
                let affinity = affinity_positions(hints.affinity);
                let config = choose|config: WaitAndWidenConfig|
                    #[trigger] resolves_to(
                        Some(written_comparator(written.comparator)),
                        written,
                        config,
                    ) && wait_and_widen_choice(
                        config,
                        request,
                        measures,
                        candidates,
                        affinity,
                        choice,
                    );
                let all = all_positions(candidates.len());
                if choice_among(config, request, measures, candidates, all, choice) {
                    wait_and_widen_chooses_a_usable_cluster(
                        config,
                        request,
                        measures,
                        candidates,
                        all,
                        choice,
                    );
                } else {
                    wait_and_widen_chooses_a_usable_cluster(
                        config,
                        request,
                        measures,
                        candidates,
                        affinity->0,
                        choice,
                    );
                }
            },
            LoadBalancerAlgorithmSettings::RoundRobin => {
                let at = (turn as int) % (eligible.len() as int);
                assert(eligible[at] < count);
            },
            LoadBalancerAlgorithmSettings::Random => {},
            LoadBalancerAlgorithmSettings::Pulsar(_) => {
                assert(hints.ranking.len() == hints.ranking@.len());
                ranking_is_followed(
                    essence.request_policy,
                    request,
                    candidates,
                    hints.ranking@,
                );
            },
            LoadBalancerAlgorithmSettings::PulsarWaitAndWiden(written) => {
                let config = choose|config: WaitAndWidenConfig|
                    #[trigger] resolves_to(None, written, config) && banded_choice(
                        config,
                        essence.request_policy,
                        request,
                        measures,
                        candidates,
                        hints.ranking@,
                        choice,
                    );
                bands_choose_a_usable_cluster(
                    config,
                    essence.request_policy,
                    request,
                    measures,
                    candidates,
                    hints.ranking@,
                    choice,
                );
            },
        }
    }
}

} // verus!
