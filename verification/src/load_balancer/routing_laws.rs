//! What holds of routing: which configuration a request goes through, and what becomes of it.

use super::algorithm::{
    LoadBalancerAlgorithm, LoadBalancerAlgorithmOverride, LoadBalancerRoutingAlgorithmError,
};
use super::choice_laws::{failed_clusters_are_left_out, failed_on, usable};
use super::config::{
    one_entry_each, one_entry_each_model, ConfigEssence, LoadBalancerAlgorithmConfig,
    LoadBalancerAlgorithmSettings, LoadBalancerConfig, LoadBalancerConfigError,
    LoadBalancerModelConfig,
};
use super::measures::Measures;
use super::power_of_n::{
    least_loaded, least_loaded_is_a_least_sampled_candidate, power_of_n_choice,
    PowerOfNLoadBalancer,
};
use super::pulsar_wait_and_widen::{
    banded_choice, bands_choose_a_usable_cluster, choice_in_band, lemma_with_room, next_width,
    widening_choice, with_room,
};
use super::random::is_sample;
use super::request::{
    chosen, eligible_indices, lemma_eligible_indices, LoadBalancerCandidateChoice,
    LoadBalancerRequest, RoutedClusterSnapshot,
};
use super::router::{
    algorithm_of, chosen_through, entries_error, first_of, models_error, resolve,
    selected_through, set_of_model, LoadBalancerAlgorithmConfigSet,
    LoadBalancerAlgorithmResolution, LoadBalancerCandidateSelection, LoadBalancerRouter,
};
use super::score::Score;
use super::target_state::{
    balances, choose_in_turn, DefinitionId, LoadBalancerDefinition, LoadBalancerTargetState,
    RoutingHints,
};
use crate::trace::{record_views, FieldValue, FieldView, SpanField};
use super::wait_and_widen::{
    choice_among, valid_positions, wait_and_widen_chooses_a_usable_cluster, WaitAndWidenConfig,
};
use super::widening_laws::{may_go_to, takes_another};
use vstd::prelude::*;

verus! {

/// What an entry says of requests: its policy and settings, or those of an algorithm that is only
/// named.
pub open spec fn says(
    entry: LoadBalancerModelConfig,
    essence: ConfigEssence,
) -> bool {
    match entry {
        LoadBalancerModelConfig::Name(algorithm) => {
            &&& essence.settings.chosen_algorithm() == algorithm
            &&& !essence.request_policy.require_cache_affinity_key
            &&& !essence.request_policy.require_input_tokens
            &&& !essence.request_policy.consider_kv_free_tokens
            &&& essence.max_input_work_seconds is None
        },
        LoadBalancerModelConfig::Detailed(config) => {
            &&& essence.settings == config.settings
            &&& essence.request_policy == config.request_policy
            &&& essence.max_input_work_seconds == config.max_input_work_seconds
        },
    }
}

/// The entries of a model by which requests may pick another algorithm.
pub open spec fn entries_of(model: LoadBalancerModelConfig) -> Seq<
    (LoadBalancerAlgorithm, LoadBalancerModelConfig),
> {
    match model {
        LoadBalancerModelConfig::Name(_) => Seq::empty(),
        LoadBalancerModelConfig::Detailed(config) => config.request_algorithms@,
    }
}

/// The algorithm that an entry names or configures.
pub open spec fn algorithm_in(entry: LoadBalancerModelConfig) -> LoadBalancerAlgorithm {
    match entry {
        LoadBalancerModelConfig::Name(algorithm) => algorithm,
        LoadBalancerModelConfig::Detailed(config) => match config.settings {
            LoadBalancerAlgorithmSettings::PowerOfN(_) => LoadBalancerAlgorithm::PowerOfN,
            LoadBalancerAlgorithmSettings::WaitAndWiden(_) => LoadBalancerAlgorithm::WaitAndWiden,
            LoadBalancerAlgorithmSettings::RoundRobin => LoadBalancerAlgorithm::RoundRobin,
            LoadBalancerAlgorithmSettings::Random => LoadBalancerAlgorithm::Random,
            LoadBalancerAlgorithmSettings::Pulsar(_) => LoadBalancerAlgorithm::Pulsar,
            LoadBalancerAlgorithmSettings::PulsarWaitAndWiden(_) =>
                LoadBalancerAlgorithm::PulsarWaitAndWiden,
        },
    }
}

proof fn lemma_set_of_model(
    models: Seq<(String, LoadBalancerAlgorithmConfigSet)>,
    default: LoadBalancerAlgorithmConfigSet,
    model_id: Seq<char>,
    from: int,
)
    requires
        0 <= from <= models.len(),
    ensures
        forall|i: int|
            from <= i < models.len() && (#[trigger] models[i]).0@ == model_id && (forall|j: int|
                from <= j < i ==> (#[trigger] models[j]).0@ != model_id) ==> set_of_model(
                models,
                default,
                model_id,
                from,
            ) == models[i].1,
        (forall|i: int| from <= i < models.len() ==> (#[trigger] models[i]).0@ != model_id)
            ==> set_of_model(models, default, model_id, from) == default,
    decreases models.len() - from,
{
    if from < models.len() {
        lemma_set_of_model(models, default, model_id, from + 1);
    }
}

/// A model that is configured goes through its own configuration, and a request that names no
/// algorithm through the algorithm that is configured.
pub proof fn configured_models_go_through_their_configuration(
    config: LoadBalancerConfig,
    router_id: u64,
    router: LoadBalancerRouter,
    at: int,
    model_id: &str,
    found: &LoadBalancerAlgorithmConfig,
)
    requires
        one_entry_each_model(config.models@),
        call_ensures(
            LoadBalancerRouter::from_config,
            (config, router_id),
            Ok::<LoadBalancerRouter, LoadBalancerConfigError>(router),
        ),
        0 <= at < config.models@.len(),
        config.models@[at].0@ == model_id@,
        call_ensures(LoadBalancerRouter::algorithm_config, (&router, model_id), found),
    ensures
        says(config.models@[at].1, found.essence()),
{
    let sets = router.model_sets();
    assert(sets[at].0@ == model_id@);
    assert forall|j: int| 0 <= j < at implies (#[trigger] sets[j]).0@ != model_id@ by {
        assert(config.models@[j].0@ != config.models@[at].0@);
    }
    lemma_set_of_model(sets, router.default_set(), model_id@, 0);
}

/// A model that is not configured goes through the default algorithm, with nothing written.
pub proof fn other_models_go_through_the_default(
    config: LoadBalancerConfig,
    router_id: u64,
    router: LoadBalancerRouter,
    model_id: &str,
    found: &LoadBalancerAlgorithmConfig,
)
    requires
        call_ensures(
            LoadBalancerRouter::from_config,
            (config, router_id),
            Ok::<LoadBalancerRouter, LoadBalancerConfigError>(router),
        ),
        forall|i: int|
            0 <= i < config.models@.len() ==> (#[trigger] config.models@[i]).0@ != model_id@,
        call_ensures(LoadBalancerRouter::algorithm_config, (&router, model_id), found),
    ensures
        says(LoadBalancerModelConfig::Name(config.default), found.essence()),
{
    let sets = router.model_sets();
    assert forall|i: int| 0 <= i < sets.len() implies (#[trigger] sets[i]).0@ != model_id@ by {
        assert(config.models@[i].0@ != model_id@);
    }
    lemma_set_of_model(sets, router.default_set(), model_id@, 0);
}

proof fn lemma_first_entry(
    set: LoadBalancerAlgorithmConfigSet,
    essence: ConfigEssence,
    entries: Seq<(LoadBalancerAlgorithm, LoadBalancerModelConfig)>,
    algorithm: LoadBalancerAlgorithm,
    from: int,
)
    requires
        set.made_from(essence, entries),
        one_entry_each(entries),
        0 <= from <= entries.len(),
        forall|i: int| 0 <= i < from ==> (#[trigger] entries[i]).0 != algorithm,
    ensures
        first_of(set.pickable(), algorithm, from) is Some <==> exists|i: int|
            0 <= i < entries.len() && (#[trigger] entries[i]).0 == algorithm,
        forall|i: int|
            0 <= i < entries.len() && (#[trigger] entries[i]).0 == algorithm ==> first_of(
                set.pickable(),
                algorithm,
                from,
            ) is Some && says(
                entries[i].1,
                first_of(set.pickable(), algorithm, from)->0.essence(),
            ),
    decreases entries.len() - from,
{
    if from < entries.len() {
        assert(algorithm_of(set.pickable()[from]) == entries[from].0);
        if entries[from].0 != algorithm {
            lemma_first_entry(set, essence, entries, algorithm, from + 1);
        }
    }
}

/// A request that picks an algorithm goes through it, as the model configures it: the model's own
/// algorithm as it stands, else the model's entry for it, else the entry for all models. Where
/// there is none the request is told that the algorithm that it asked for is not available.
pub proof fn picked_algorithms_are_looked_up_in_order(
    config: LoadBalancerConfig,
    router_id: u64,
    router: LoadBalancerRouter,
    at: int,
    model_id: &str,
    picked: &LoadBalancerAlgorithmOverride,
    resolution: Result<LoadBalancerAlgorithmResolution<'_>, LoadBalancerRoutingAlgorithmError>,
    own: int,
    shared: int,
)
    requires
        config.wf(),
        call_ensures(
            LoadBalancerRouter::from_config,
            (config, router_id),
            Ok::<LoadBalancerRouter, LoadBalancerConfigError>(router),
        ),
        0 <= at < config.models@.len(),
        config.models@[at].0@ == model_id@,
        call_ensures(
            LoadBalancerRouter::resolve_algorithm_override,
            (&router, model_id, Some(picked)),
            resolution,
        ),
    ensures
        ({
            let model = config.models@[at].1;
            let entries = entries_of(model);
            let all = config.request_algorithms@;
            let algorithm = picked.picked();
            &&& resolution is Err <==> algorithm_in(model) != algorithm && (forall|i: int|
                0 <= i < entries.len() ==> (#[trigger] entries[i]).0 != algorithm) && (forall|
                i: int,
            |
                0 <= i < all.len() ==> (#[trigger] all[i]).0 != algorithm)
            &&& resolution matches Err(error) ==> error is Unavailable && error.raw()
                == picked.raw() && error->algorithm == algorithm
            &&& resolution matches Ok(made) ==> {
                &&& algorithm_of(made.resolved()) == algorithm
                &&& made.requested() == Some(picked.raw())
                &&& algorithm_in(model) == algorithm ==> says(model, made.resolved().essence())
                &&& algorithm_in(model) != algorithm && 0 <= own < entries.len()
                    && entries[own].0 == algorithm ==> says(
                    entries[own].1,
                    made.resolved().essence(),
                )
                &&& algorithm_in(model) != algorithm && (forall|i: int|
                    0 <= i < entries.len() ==> (#[trigger] entries[i]).0 != algorithm) && 0
                    <= shared < all.len() && all[shared].0 == algorithm ==> says(
                    all[shared].1,
                    made.resolved().essence(),
                )
            }
        }),
{
    let sets = router.model_sets();
    let model = config.models@[at].1;
    let algorithm = picked.picked();
    assert(sets[at].0@ == model_id@);
    assert forall|j: int| 0 <= j < at implies (#[trigger] sets[j]).0@ != model_id@ by {
        assert(config.models@[j].0@ != config.models@[at].0@);
    }
    lemma_set_of_model(sets, router.default_set(), model_id@, 0);
    let set = sets[at].1;
    assert(router.set_for(model_id@) == set);
    assert(says(model, set.configured().essence()));
    assert(entries_of(model) =~= super::config::entry_request_algorithms(model));
    assert(one_entry_each(entries_of(model))) by {
        assert(model.wf());
    }
    lemma_first_entry(set, set.configured().essence(), entries_of(model), algorithm, 0);
    lemma_first_entry(
        router.default_set(),
        router.default_set().configured().essence(),
        config.request_algorithms@,
        algorithm,
        0,
    );
    super::router::picked_algorithm_is_followed(set, router.default_set(), algorithm);
}

/// A request that picks no algorithm goes through the one that its model is configured with, and no
/// such request is refused.
pub proof fn requests_without_a_pick_are_never_refused(
    router: LoadBalancerRouter,
    model_id: &str,
    resolution: Result<LoadBalancerAlgorithmResolution<'_>, LoadBalancerRoutingAlgorithmError>,
    found: &LoadBalancerAlgorithmConfig,
    name: String,
)
    requires
        call_ensures(
            LoadBalancerRouter::resolve_algorithm_override,
            (&router, model_id, None),
            resolution,
        ),
        call_ensures(LoadBalancerRouter::algorithm_config, (&router, model_id), found),
        call_ensures(LoadBalancerRouter::algorithm_name, (&router, model_id), name),
    ensures
        resolution matches Ok(made) && made.requested() is None && made.resolved().essence()
            == found.essence() && name@ == algorithm_of(made.resolved()).label(),
{
}

/// Whether settings are out of bounds.
pub open spec fn out_of_bounds(settings: LoadBalancerAlgorithmSettings) -> bool {
    ||| settings matches LoadBalancerAlgorithmSettings::PowerOfN(config) && !(0
        < config.sample_count < 65)
    ||| settings matches LoadBalancerAlgorithmSettings::PulsarWaitAndWiden(config)
        && config.comparator is Some
}

/// Whether an entry stands under the name of another algorithm, or its settings are out of bounds.
pub open spec fn faulty(entry: (LoadBalancerAlgorithm, LoadBalancerModelConfig)) -> bool {
    ||| algorithm_in(entry.1) != entry.0
    ||| entry.1 matches LoadBalancerModelConfig::Detailed(config) && out_of_bounds(config.settings)
}

proof fn lemma_entries_error(
    entries: Seq<(LoadBalancerAlgorithm, LoadBalancerModelConfig)>,
    from: int,
)
    requires
        0 <= from <= entries.len(),
    ensures
        entries_error(entries, from) is Some <==> exists|i: int|
            from <= i < entries.len() && faulty(#[trigger] entries[i]),
    decreases entries.len() - from,
{
    if from < entries.len() {
        lemma_entries_error(entries, from + 1);
    }
}

proof fn lemma_models_error(models: Seq<(String, LoadBalancerModelConfig)>, from: int)
    requires
        0 <= from <= models.len(),
    ensures
        models_error(models, from) is Some <==> exists|i: int|
            from <= i < models.len() && faulty_model((#[trigger] models[i]).1),
    decreases models.len() - from,
{
    if from < models.len() {
        lemma_models_error(models, from + 1);
        lemma_entries_error(super::config::entry_request_algorithms(models[from].1), 0);
        assert(entries_of(models[from].1) =~= super::config::entry_request_algorithms(
            models[from].1,
        ));
    }
}

/// Whether the settings of a model are out of bounds, or one of its entries is faulty.
pub open spec fn faulty_model(model: LoadBalancerModelConfig) -> bool {
    ||| model matches LoadBalancerModelConfig::Detailed(config) && out_of_bounds(config.settings)
    ||| exists|i: int| 0 <= i < entries_of(model).len() && faulty(#[trigger] entries_of(model)[i])
}

/// A configuration is refused if and only if something in it is faulty: an entry for all models, a
/// model, or an entry of a model.
pub proof fn only_faulty_configurations_are_refused(
    config: LoadBalancerConfig,
    router_id: u64,
    router: Result<LoadBalancerRouter, LoadBalancerConfigError>,
)
    requires
        call_ensures(LoadBalancerRouter::from_config, (config, router_id), router),
    ensures
        router is Err <==> (exists|i: int|
            0 <= i < config.request_algorithms@.len() && faulty(
                #[trigger] config.request_algorithms@[i],
            )) || (exists|i: int|
            0 <= i < config.models@.len() && faulty_model((#[trigger] config.models@[i]).1)),
{
    lemma_entries_error(config.request_algorithms@, 0);
    lemma_models_error(config.models@, 0);
}

/// Definitions of one router are told apart: by the model they stand for, and by their place among
/// those of the model.
pub proof fn definitions_are_told_apart(
    config: LoadBalancerConfig,
    router_id: u64,
    router: LoadBalancerRouter,
    i: int,
    j: int,
    a: int,
    b: int,
)
    requires
        call_ensures(
            LoadBalancerRouter::from_config,
            (config, router_id),
            Ok::<LoadBalancerRouter, LoadBalancerConfigError>(router),
        ),
        config.models@.len() < usize::MAX,
        0 <= i < router.model_sets().len(),
        0 <= j < router.model_sets().len(),
        0 <= a < router.model_sets()[i].1.pickable().len() < usize::MAX,
        0 <= b < router.model_sets()[i].1.pickable().len(),
        router.default_set().pickable().len() < usize::MAX,
    ensures
        i != j ==> router.model_sets()[i].1.configured().identity()
            != router.model_sets()[j].1.configured().identity(),
        router.model_sets()[i].1.configured().identity()
            != router.default_set().configured().identity(),
        router.model_sets()[i].1.configured().identity()
            != router.model_sets()[i].1.pickable()[a].identity(),
        a != b ==> router.model_sets()[i].1.pickable()[a].identity()
            != router.model_sets()[i].1.pickable()[b].identity(),
        router.model_sets()[i].1.configured().identity().router == router_id,
{
    assert(router.model_sets()[i].1.placed_at(router_id, i + 1));
    assert(router.model_sets()[j].1.placed_at(router_id, j + 1));
}

/// A selection says through which algorithm it was made and which one was asked for. It shows the
/// signal of the chosen cluster where the algorithm compares clusters by one. Without candidates
/// nothing is selected, and no turn is taken.
pub proof fn selections_say_how_they_were_made<
    E: Fn(Score, Score, u64) -> bool,
    U: Fn(Score, Score, Score, Score) -> Option<Score>,
    L: Fn(u64, u64) -> Score,
>(
    definition: LoadBalancerDefinition,
    asked: Option<Seq<char>>,
    before: LoadBalancerTargetState,
    request: LoadBalancerRequest,
    candidates: Seq<RoutedClusterSnapshot>,
    hints: RoutingHints,
    measures: Measures<E, U, L>,
    selection: Option<LoadBalancerCandidateSelection>,
    after: LoadBalancerTargetState,
)
    requires
        selected_through(
            definition,
            asked,
            before,
            request,
            candidates,
            hints,
            measures,
            selection,
            after,
        ),
    ensures
        candidates.len() == 0 ==> selection is None && after == before,
        !(definition.essence().settings is RoundRobin) ==> after.turn_of(definition.identity())
            == before.turn_of(definition.identity()),
        selection matches Some(made) ==> {
            let settings = definition.essence().settings;
            &&& made.choice.candidate_index < candidates.len()
            &&& made.effective_algorithm is PowerOfN <==> settings is PowerOfN
            &&& made.effective_algorithm is WaitAndWiden <==> settings is WaitAndWiden
            &&& made.effective_algorithm is RoundRobin <==> settings is RoundRobin
            &&& made.effective_algorithm is Random <==> settings is Random
            &&& made.effective_algorithm is Pulsar <==> settings is Pulsar
            &&& made.effective_algorithm is PulsarWaitAndWiden <==> settings is PulsarWaitAndWiden
            &&& asked is None <==> made.requested_algorithm is None
            &&& asked is Some ==> made.requested_algorithm->0@ == asked->0
            &&& made.comparator is Some <==> settings is PowerOfN || settings is WaitAndWiden
        },
{
}

/// Whichever algorithm chooses, a cluster that the request failed on is not chosen. Those that do
/// not look at the load of clusters choose one whenever there is one that the request did not fail
/// on, and only choosing in turn takes a turn.
pub proof fn failed_clusters_are_not_chosen_again<
    E: Fn(Score, Score, u64) -> bool,
    U: Fn(Score, Score, Score, Score) -> Option<Score>,
    L: Fn(u64, u64) -> Score,
>(
    essence: ConfigEssence,
    turn: usize,
    request: LoadBalancerRequest,
    candidates: Seq<RoutedClusterSnapshot>,
    hints: RoutingHints,
    measures: Measures<E, U, L>,
    choice: Option<LoadBalancerCandidateChoice>,
    turn_after: usize,
    k: int,
)
    requires
        super::target_state::settings_error(essence.settings) is None,
        candidates.len() <= usize::MAX,
        hints.wf(candidates.len() as int),
        balances(
            essence,
            turn,
            request,
            candidates,
            hints,
            measures,
            choice,
            turn_after,
        ),
        0 <= k < candidates.len(),
    ensures
        choice matches Some(made) ==> made.candidate_index < candidates.len() && !failed_on(
            request,
            candidates[made.candidate_index as int],
        ),
        (essence.settings is RoundRobin || essence.settings is Random || essence.settings
            is PowerOfN) && !failed_on(request, candidates[k]) ==> choice is Some,
        essence.settings is RoundRobin ==> (turn_after == turn <==> choice is None),
        !(essence.settings is RoundRobin) ==> turn_after == turn,
{
    super::laws::chosen_candidate_exists(
        essence,
        turn,
        request,
        candidates,
        hints,
        measures,
        choice,
        turn_after,
    );
    if choice is Some {
        failed_clusters_are_left_out(
            request,
            candidates[choice->0.candidate_index as int],
            true,
        );
    }
    failed_clusters_are_left_out(request, candidates[k], true);
    lemma_eligible_indices(request, candidates, candidates.len() as int);
    if !failed_on(request, candidates[k]) {
        assert(eligible_indices(request, candidates, candidates.len() as int).contains(k as usize));
    }
}

/// A choice among n samples n different clusters that the request did not fail on, or all of them
/// where there are fewer, and takes one that no other of them is smaller than by the signal.
pub proof fn the_least_of_n_is_chosen(
    balancer: PowerOfNLoadBalancer,
    request: LoadBalancerRequest,
    candidates: Seq<RoutedClusterSnapshot>,
    made: LoadBalancerCandidateChoice,
) -> (sample: Seq<usize>)
    requires
        balancer.wf(),
        candidates.len() <= usize::MAX,
        power_of_n_choice(balancer, request, candidates, Some(made)),
    ensures
        sample.no_duplicates(),
        sample.contains(made.candidate_index),
        forall|i: int|
            0 <= i < sample.len() ==> (#[trigger] sample[i]) < candidates.len() && !failed_on(
                request,
                candidates[sample[i] as int],
            ) && balancer.comparator.key(candidates[made.candidate_index as int])
                <= balancer.comparator.key(candidates[sample[i] as int]),
        sample.len() <= balancer.sample_count,
        sample.len() < balancer.sample_count ==> forall|k: int|
            0 <= k < candidates.len() && !failed_on(request, #[trigger] candidates[k])
                ==> sample.contains(k as usize),
        made.rank_depth == 1,
        !made.selected_after_kv_free_tokens_skip,
{
    let count = candidates.len() as int;
    let eligible = eligible_indices(request, candidates, count);
    lemma_eligible_indices(request, candidates, count);
    let (sample, draws) = choose|sample: Seq<usize>, draws: Seq<bool>|
        is_sample(eligible, balancer.sample_count as int, sample) && draws.len() == sample.len()
            && Some(made) == Some(
            chosen(#[trigger] least_loaded(candidates, sample, balancer.comparator, draws) as int),
        );
    least_loaded_is_a_least_sampled_candidate(candidates, sample, balancer.comparator, draws);
    assert forall|i: int| 0 <= i < sample.len() implies (#[trigger] sample[i]) < candidates.len()
        && !failed_on(request, candidates[sample[i] as int]) by {
        assert(eligible.contains(sample[i]));
        let at = choose|at: int| 0 <= at < eligible.len() && eligible[at] == sample[i];
        assert(eligible[at] < count);
        failed_clusters_are_left_out(request, candidates[sample[i] as int], true);
    }
    if sample.len() < balancer.sample_count {
        assert forall|k: int|
            0 <= k < candidates.len() && !failed_on(
                request,
                #[trigger] candidates[k],
            ) implies sample.contains(k as usize) by {
            failed_clusters_are_left_out(request, candidates[k], true);
            assert(eligible.contains(k as usize));
            super::power_of_n::lemma_full_sample(eligible, balancer.sample_count as int, sample);
        }
    }
    sample
}

proof fn lemma_band_limit<
    E: Fn(Score, Score, u64) -> bool,
    U: Fn(Score, Score, Score, Score) -> Option<Score>,
    L: Fn(u64, u64) -> Score,
>(
    config: WaitAndWidenConfig,
    policy: super::config::LoadBalancerRequestPolicy,
    request: LoadBalancerRequest,
    measures: Measures<E, U, L>,
    candidates: Seq<RoutedClusterSnapshot>,
    ranking: Seq<usize>,
    width: int,
    made: LoadBalancerCandidateChoice,
    floor: u64,
    ceil: u64,
)
    requires
        config.wf(),
        config.queue_slo == Some((floor, ceil)),
        valid_positions(ranking, candidates.len() as int),
        widening_choice(
            config,
            policy,
            request,
            measures,
            candidates,
            ranking,
            width,
            Some(made),
        ),
    ensures
        exists|longest: Score| #[trigger]
            measures.says_queue_limit(floor, ceil, longest)
                && candidates[made.candidate_index as int].scores.queue_ms.rank()
                <= longest.rank(),
    decreases ranking.len() - width,
{
    if choice_in_band(
        config,
        policy,
        request,
        measures,
        candidates,
        ranking,
        width,
        Some(made),
    ) {
        let front = ranking.take(width);
        lemma_with_room(policy, request, candidates, front);
        wait_and_widen_chooses_a_usable_cluster(
            config,
            request,
            measures,
            candidates,
            with_room(policy, request, candidates, front),
            Some(made),
        );
    } else {
        lemma_band_limit(
            config,
            policy,
            request,
            measures,
            candidates,
            ranking,
            next_width(width, ranking.len() as int),
            made,
            floor,
            ceil,
        );
    }
}

/// Bands lead to a cluster of the ranking that is usable and can take another request, and where
/// queues are bounded to one whose queue is not longer than the bound.
pub proof fn bands_keep_to_all_bounds<
    E: Fn(Score, Score, u64) -> bool,
    U: Fn(Score, Score, Score, Score) -> Option<Score>,
    L: Fn(u64, u64) -> Score,
>(
    config: WaitAndWidenConfig,
    policy: super::config::LoadBalancerRequestPolicy,
    request: LoadBalancerRequest,
    measures: Measures<E, U, L>,
    candidates: Seq<RoutedClusterSnapshot>,
    ranking: Seq<usize>,
    made: LoadBalancerCandidateChoice,
)
    requires
        config.wf(),
        valid_positions(ranking, candidates.len() as int),
        banded_choice(config, policy, request, measures, candidates, ranking, Some(made)),
    ensures
        ranking.contains(made.candidate_index),
        made.candidate_index < candidates.len(),
        usable(policy, request, candidates[made.candidate_index as int]),
        takes_another(config, candidates[made.candidate_index as int]),
        config.queue_slo matches Some(bounds) ==> exists|longest: Score| #[trigger]
            measures.says_queue_limit(bounds.0, bounds.1, longest)
                && candidates[made.candidate_index as int].scores.queue_ms.rank()
                <= longest.rank(),
{
    bands_choose_a_usable_cluster(
        config,
        policy,
        request,
        measures,
        candidates,
        ranking,
        Some(made),
    );
    failed_clusters_are_left_out(request, candidates[made.candidate_index as int], true);
    if let Some((floor, ceil)) = config.queue_slo {
        lemma_band_limit(
            config,
            policy,
            request,
            measures,
            candidates,
            ranking,
            1,
            made,
            floor,
            ceil,
        );
    }
}

/// The first of a ranking is chosen without asking how others fare, if queues are not bounded, it is
/// usable, and it can take another request.
pub proof fn a_usable_first_cluster_is_chosen<
    E: Fn(Score, Score, u64) -> bool,
    U: Fn(Score, Score, Score, Score) -> Option<Score>,
    L: Fn(u64, u64) -> Score,
>(
    config: WaitAndWidenConfig,
    policy: super::config::LoadBalancerRequestPolicy,
    request: LoadBalancerRequest,
    measures: Measures<E, U, L>,
    candidates: Seq<RoutedClusterSnapshot>,
    ranking: Seq<usize>,
    choice: Option<LoadBalancerCandidateChoice>,
)
    requires
        banded_choice(config, policy, request, measures, candidates, ranking, choice),
        config.queue_slo is None,
        ranking.len() > 0,
        usable(policy, request, candidates[ranking[0] as int]),
        takes_another(config, candidates[ranking[0] as int]),
    ensures
        choice matches Some(made) && made.candidate_index == ranking[0] && made.rank_depth == 1
            && !made.selected_after_kv_free_tokens_skip,
{
    failed_clusters_are_left_out(request, candidates[ranking[0] as int], true);
}

/// A band of some width leads to one of the first that many of the ranking.
pub proof fn bands_are_the_front_of_the_ranking<
    E: Fn(Score, Score, u64) -> bool,
    U: Fn(Score, Score, Score, Score) -> Option<Score>,
    L: Fn(u64, u64) -> Score,
>(
    config: WaitAndWidenConfig,
    policy: super::config::LoadBalancerRequestPolicy,
    request: LoadBalancerRequest,
    measures: Measures<E, U, L>,
    candidates: Seq<RoutedClusterSnapshot>,
    ranking: Seq<usize>,
    width: int,
    choice: Option<LoadBalancerCandidateChoice>,
    k: int,
)
    requires
        config.wf(),
        valid_positions(ranking, candidates.len() as int),
        0 <= k < width <= ranking.len(),
        choice_in_band(
            config,
            policy,
            request,
            measures,
            candidates,
            ranking,
            width,
            choice,
        ),
    ensures
        choice matches Some(made) ==> exists|i: int|
            0 <= i < width && #[trigger] ranking[i] == made.candidate_index && usable(
                policy,
                request,
                candidates[ranking[i] as int],
            ),
        usable(policy, request, candidates[ranking[k] as int]) ==> exists|band: Seq<usize>|
            band.contains(ranking[k]) && #[trigger] choice_among(
                config,
                request,
                measures,
                candidates,
                band,
                choice,
            ),
{
    let front = ranking.take(width);
    assert(valid_positions(front, candidates.len() as int));
    let band = with_room(policy, request, candidates, front);
    lemma_with_room(policy, request, candidates, front);
    assert(front[k] == ranking[k]);
    if choice is Some {
        let made = choice->0;
        wait_and_widen_chooses_a_usable_cluster(
            config,
            request,
            measures,
            candidates,
            band,
            choice,
        );
        let at = choose|at: int| 0 <= at < band.len() && band[at] == made.candidate_index;
        assert(front.contains(band[at]));
        let i = choose|i: int| 0 <= i < front.len() && front[i] == made.candidate_index;
        assert(ranking[i] == made.candidate_index);
        failed_clusters_are_left_out(request, candidates[ranking[i] as int], true);
    }
    if usable(policy, request, candidates[ranking[k] as int]) {
        assert(band.contains(front[k]));
        assert(band.len() > 0);
    }
}

/// A choice through one definition leaves the turns of all others.
pub proof fn definitions_take_their_own_turns<
    E: Fn(Score, Score, u64) -> bool,
    U: Fn(Score, Score, Score, Score) -> Option<Score>,
    L: Fn(u64, u64) -> Score,
>(
    definition: LoadBalancerDefinition,
    before: LoadBalancerTargetState,
    request: LoadBalancerRequest,
    candidates: Seq<RoutedClusterSnapshot>,
    hints: RoutingHints,
    measures: Measures<E, U, L>,
    choice: Option<LoadBalancerCandidateChoice>,
    after: LoadBalancerTargetState,
    other: DefinitionId,
)
    requires
        chosen_through(
            definition,
            before,
            request,
            candidates,
            hints,
            measures,
            choice,
            after,
        ),
    ensures
        other != definition.identity() ==> after.turn_of(other) == before.turn_of(other),
        candidates.len() == 0 ==> choice is None,
        choice matches Some(made) && definition.essence().settings is RoundRobin && before.turn_of(
            definition.identity(),
        ) < usize::MAX ==> after.turn_of(definition.identity()) == before.turn_of(
            definition.identity(),
        ) + 1,
{
}

/// A choice that is made in turn is the one that a round robin makes.
pub proof fn choosing_in_turn_is_a_round_robin<
    E: Fn(Score, Score, u64) -> bool,
    U: Fn(Score, Score, Score, Score) -> Option<Score>,
    L: Fn(u64, u64) -> Score,
>(
    essence: ConfigEssence,
    turn: usize,
    request: LoadBalancerRequest,
    candidates: Vec<RoutedClusterSnapshot>,
    hints: RoutingHints,
    measures: Measures<E, U, L>,
    outcome: (Option<LoadBalancerCandidateChoice>, usize),
)
    requires
        essence.settings is RoundRobin,
        call_ensures(choose_in_turn, (turn, &request, &candidates), outcome),
    ensures
        balances(
            essence,
            turn,
            request,
            candidates@,
            hints,
            measures,
            outcome.0,
            outcome.1,
        ),
{
}

/// A choice among n records how many clusters are configured to be sampled and how many are; others
/// record no sample, and neither does a choice without candidates.
pub proof fn samples_are_recorded_as_they_are_taken(
    resolution: LoadBalancerAlgorithmResolution<'_>,
    request: LoadBalancerRequest,
    candidates: Vec<RoutedClusterSnapshot>,
    records: Vec<(SpanField, FieldValue)>,
    balancer: PowerOfNLoadBalancer,
    effective: usize,
)
    requires
        call_ensures(
            LoadBalancerAlgorithmResolution::sample_records,
            (&resolution, &request, &candidates),
            records,
        ),
        call_ensures(
            PowerOfNLoadBalancer::effective_sample_count,
            (&balancer, &request, &candidates),
            effective,
        ),
    ensures
        ({
            let said = record_views(records@);
            let settings = resolution.resolved().essence().settings;
            &&& !(settings is PowerOfN) || candidates@.len() == 0 ==> said.len() == 0
            &&& settings matches LoadBalancerAlgorithmSettings::PowerOfN(config) ==> candidates@.len()
                > 0 && config.sample_count == balancer.sample_count ==> said.len() == 2 && said[0]
                == (
                SpanField::RoutingSampleCountConfigured,
                FieldView::Number(config.sample_count as u64),
            ) && said[1] == (
                SpanField::RoutingSampleCountEffective,
                FieldView::Number(effective as u64),
            )
        }),
{
}

} // verus!
