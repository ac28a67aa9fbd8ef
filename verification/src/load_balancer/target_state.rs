//! The load balancers of one routing target.

use super::algorithm::LoadBalancerAlgorithm;
use super::config::{
    resolves_to, valid_sample_count, written_comparator, ConfigEssence, LoadBalancerAlgorithmConfig,
    LoadBalancerAlgorithmSettings, LoadBalancerConfigError, LoadBalancerModelConfig,
};
use super::measures::Measures;
use super::power_of_n::{power_of_n_choice, PowerOfNLoadBalancer};
use super::pulsar::{choose_by_rank, ranked_choice};
use super::pulsar_wait_and_widen::{banded_choice, choose_by_bands};
use super::random::{new_rng, random_index};
use super::request::{
    chosen, eligible_candidates, eligible_indices, lemma_eligible_indices,
    LoadBalancerCandidateChoice, LoadBalancerRequest, RoutedClusterSnapshot,
};
use super::score::Score;
use super::wait_and_widen::{
    affinity_positions, valid_positions, wait_and_widen_choice, WaitAndWidenConfig,
    WaitAndWidenLoadBalancer,
};
use rand::rngs::StdRng;
use vstd::prelude::*;

verus! {

/// What tells definitions apart: the router that made them, and their place in it.
#[derive(Clone, Copy, Debug, PartialEq, Eq, Structural)]
pub struct DefinitionId {
    pub router: u64,
    pub set: usize,
    pub slot: usize,
}

/// A load balancer as it is configured.
#[derive(Debug)]
pub struct LoadBalancerDefinition {
    id: DefinitionId,
    config: LoadBalancerAlgorithmConfig,
}

/// Why no load balancer can be made with given settings, if that is so.
pub open spec fn settings_error(settings: LoadBalancerAlgorithmSettings) -> Option<
    LoadBalancerConfigError,
> {
    match settings {
        LoadBalancerAlgorithmSettings::PowerOfN(config) => if valid_sample_count(
            config.sample_count,
        ) {
            None
        } else {
            Some(LoadBalancerConfigError::SampleCount { sample_count: config.sample_count })
        },
        LoadBalancerAlgorithmSettings::PulsarWaitAndWiden(config) => if config.comparator is None {
            None
        } else {
            Some(LoadBalancerConfigError::UnsupportedComparator)
        },
        _ => None,
    }
}

/// Checks that a load balancer can be made with given settings: the sample of `power-of-n` is in
/// range, and `pulsar-wait-and-widen` has no comparator.
pub fn check_settings(settings: &LoadBalancerAlgorithmSettings) -> (checked: Result<
    (),
    LoadBalancerConfigError,
>)
    ensures
        match checked {
            Ok(_) => settings_error(*settings) is None,
            Err(error) => settings_error(*settings) == Some(error),
        },
{
    match settings {
        LoadBalancerAlgorithmSettings::PowerOfN(config) => {
            match config.validated_sample_count() {
                Ok(_) => Ok(()),
                Err(error) => Err(error),
            }
        },
        LoadBalancerAlgorithmSettings::PulsarWaitAndWiden(config) => {
            if config.comparator.is_some() {
                Err(LoadBalancerConfigError::UnsupportedComparator)
            } else {
                Ok(())
            }
        },
        _ => Ok(()),
    }
}

impl LoadBalancerDefinition {
    /// What tells this definition from others.
    pub closed spec fn identity(&self) -> DefinitionId {
        self.id
    }

    /// What the load balancer is made from.
    pub closed spec fn essence(&self) -> ConfigEssence {
        self.config.essence()
    }

    /// The entries for other algorithms that the configuration carries.
    pub closed spec fn entries(&self) -> Seq<(LoadBalancerAlgorithm, LoadBalancerModelConfig)> {
        self.config.request_algorithms@
    }

    /// A load balancer can be made.
    pub open spec fn wf(&self) -> bool {
        settings_error(self.essence().settings) is None
    }

    /// A definition with the given configuration, if a load balancer can be made with it.
    pub fn new(id: DefinitionId, config: LoadBalancerAlgorithmConfig) -> (definition: Result<
        Self,
        LoadBalancerConfigError,
    >)
        ensures
            match definition {
                Ok(made) => settings_error(config.settings) is None && made.wf() && made.identity()
                    == id && made.essence() == config.essence() && made.entries()
                    == config.request_algorithms@,
                Err(error) => settings_error(config.settings) == Some(error),
            },
    {
        match check_settings(&config.settings) {
            Ok(()) => Ok(LoadBalancerDefinition { id, config }),
            Err(error) => Err(error),
        }
    }

    /// What tells this definition from others.
    pub fn id(&self) -> (id: DefinitionId)
        ensures
            id == self.identity(),
    {
        self.id
    }

    /// The configuration.
    pub fn config(&self) -> (config: &LoadBalancerAlgorithmConfig)
        ensures
            config.essence() == self.essence(),
            config.request_algorithms@ == self.entries(),
    {
        &self.config
    }
}

/// What hashes say of a request: the candidates that its cache affinity points to, and the
/// candidates as a ranking orders them, best first.
#[derive(Clone, Debug)]
pub struct RoutingHints {
    pub affinity: Option<Vec<usize>>,
    pub ranking: Vec<usize>,
}

impl RoutingHints {
    /// The hints speak of candidates that there are.
    pub open spec fn wf(&self, count: int) -> bool {
        &&& self.affinity is Some ==> valid_positions(self.affinity->0@, count)
        &&& valid_positions(self.ranking@, count)
    }

    /// Nothing is known.
    pub fn none() -> (hints: Self)
        ensures
            hints.affinity is None,
            hints.ranking@.len() == 0,
    {
        RoutingHints { affinity: None, ranking: Vec::new() }
    }
}

/// The place in turn after a place in turn.
pub open spec fn next_turn(turn: usize) -> usize {
    if turn == usize::MAX {
        0
    } else {
        (turn + 1) as usize
    }
}

/// Whether a choice, and the place in turn after it, are what a load balancer made from given
/// settings can come to when it stands at a place in turn.
pub open spec fn balances<
    E: Fn(Score, Score, u64) -> bool,
    U: Fn(Score, Score, Score, Score) -> Option<Score>,
    L: Fn(u64, u64) -> Score,
>(
    essence: ConfigEssence,
    turn: usize,
    request: LoadBalancerRequest,
    candidates: Seq<RoutedClusterSnapshot>,
    hints: RoutingHints,
    measures: Measures<E, U, L>,
    choice: Option<LoadBalancerCandidateChoice>,
    turn_after: usize,
) -> bool {
    let eligible = eligible_indices(request, candidates, candidates.len() as int);
    match essence.settings {
        LoadBalancerAlgorithmSettings::PowerOfN(config) => {
            &&& power_of_n_choice(
                PowerOfNLoadBalancer {
                    sample_count: config.sample_count,
                    comparator: written_comparator(config.comparator),
                },
                request,
                candidates,
                choice,
            )
            &&& turn_after == turn
        },
        LoadBalancerAlgorithmSettings::WaitAndWiden(written) => {
            &&& exists|config: WaitAndWidenConfig|
                #[trigger] resolves_to(
                    Some(written_comparator(written.comparator)),
                    written,
                    config,
                ) && wait_and_widen_choice(
                    config,
                    request,
                    measures,
                    candidates,
                    affinity_positions(hints.affinity),
                    choice,
                )
            &&& turn_after == turn
        },
        LoadBalancerAlgorithmSettings::RoundRobin => if eligible.len() == 0 {
            choice is None && turn_after == turn
        } else {
            choice == Some(chosen(eligible[(turn as int) % (eligible.len() as int)] as int))
                && turn_after == next_turn(turn)
        },
        LoadBalancerAlgorithmSettings::Random => {
            &&& if eligible.len() == 0 {
                choice is None
            } else {
                exists|i: int|
                    0 <= i < eligible.len() && choice == Some(
                        chosen(#[trigger] eligible[i] as int),
                    )
            }
            &&& turn_after == turn
        },
        LoadBalancerAlgorithmSettings::Pulsar(_) => choice == ranked_choice(
            essence.request_policy,
            request,
            candidates,
            hints.ranking@,
        ) && turn_after == turn,
        LoadBalancerAlgorithmSettings::PulsarWaitAndWiden(written) => {
            &&& exists|config: WaitAndWidenConfig|
                #[trigger] resolves_to(None, written, config) && banded_choice(
                    config,
                    essence.request_policy,
                    request,
                    measures,
                    candidates,
                    hints.ranking@,
                    choice,
                )
            &&& turn_after == turn
        },
    }
}

/// Chooses the eligible candidates in turn. Returns the choice and the place in turn after it.
pub fn choose_in_turn(
    turn: usize,
    request: &LoadBalancerRequest,
    candidates: &Vec<RoutedClusterSnapshot>,
) -> (outcome: (Option<LoadBalancerCandidateChoice>, usize))
    ensures
        ({
            let eligible = eligible_indices(*request, candidates@, candidates@.len() as int);
            if eligible.len() == 0 {
                outcome.0 is None && outcome.1 == turn
            } else {
                outcome.0 == Some(chosen(eligible[(turn as int) % (eligible.len() as int)] as int))
                    && outcome.1 == next_turn(turn)
            }
        }),
{
    let eligible: Vec<usize> = eligible_candidates(request, candidates);
    if eligible.len() == 0 {
        return (None, turn);
    }
    let index: usize = eligible[turn % eligible.len()];
    let after: usize = if turn == usize::MAX { 0 } else { turn + 1 };
    (Some(LoadBalancerCandidateChoice::with_rank_depth_1(index)), after)
}

/// Chooses any of the eligible candidates.
pub fn choose_at_random(
    request: &LoadBalancerRequest,
    candidates: &Vec<RoutedClusterSnapshot>,
    rng: &mut StdRng,
) -> (choice: Option<LoadBalancerCandidateChoice>)
    ensures
        ({
            let eligible = eligible_indices(*request, candidates@, candidates@.len() as int);
            if eligible.len() == 0 {
                choice is None
            } else {
                exists|i: int|
                    0 <= i < eligible.len() && choice == Some(
                        chosen(#[trigger] eligible[i] as int),
                    )
            }
        }),
{
    let eligible: Vec<usize> = eligible_candidates(request, candidates);
    if eligible.len() == 0 {
        return None;
    }
    let at: usize = random_index(rng, 0, eligible.len());
    let index: usize = eligible[at];
    Some(LoadBalancerCandidateChoice::with_rank_depth_1(index))
}

/// Lets a load balancer with given settings choose. Returns the choice and the place in turn after
/// it.
fn balance<
    E: Fn(Score, Score, u64) -> bool,
    U: Fn(Score, Score, Score, Score) -> Option<Score>,
    L: Fn(u64, u64) -> Score,
>(
    config: &LoadBalancerAlgorithmConfig,
    turn: usize,
    request: &LoadBalancerRequest,
    candidates: &Vec<RoutedClusterSnapshot>,
    hints: &RoutingHints,
    measures: &Measures<E, U, L>,
) -> (outcome: (Option<LoadBalancerCandidateChoice>, usize))
    requires
        settings_error(config.settings) is None,
        measures.total(),
        hints.wf(candidates@.len() as int),
    ensures
        balances(
            config.essence(),
            turn,
            *request,
            candidates@,
            *hints,
            *measures,
            outcome.0,
            outcome.1,
        ),
{
    match &config.settings {
        LoadBalancerAlgorithmSettings::PowerOfN(written) => {
            let balancer = PowerOfNLoadBalancer {
                sample_count: written.sample_count,
                comparator: match written.comparator {
                    Some(comparator) => comparator,
                    None => super::comparator::ClusterComparator::default(),
                },
            };
            (balancer.choose_candidate(request, candidates), turn)
        },
        LoadBalancerAlgorithmSettings::WaitAndWiden(written) => {
            let balancer = WaitAndWidenLoadBalancer {
                config: WaitAndWidenConfig::from_algorithm_config(config),
            };
            let choice: Option<LoadBalancerCandidateChoice> = balancer.choose_candidate(
                request,
                candidates,
                &hints.affinity,
                measures,
            );
            assert(resolves_to(
                Some(written_comparator(written.comparator)),
                *written,
                balancer.config,
            ));
            (choice, turn)
        },
        LoadBalancerAlgorithmSettings::RoundRobin => choose_in_turn(turn, request, candidates),
        LoadBalancerAlgorithmSettings::Random => {
            let mut rng: StdRng = new_rng();
            (choose_at_random(request, candidates, &mut rng), turn)
        },
        LoadBalancerAlgorithmSettings::Pulsar(_) => (
            choose_by_rank(&config.request_policy, request, candidates, &hints.ranking),
            turn,
        ),
        LoadBalancerAlgorithmSettings::PulsarWaitAndWiden(written) => {
            let widening: WaitAndWidenConfig = WaitAndWidenConfig::from_algorithm_config(config);
            let mut rng: StdRng = new_rng();
            let choice: Option<LoadBalancerCandidateChoice> = choose_by_bands(
                &widening,
                &config.request_policy,
                request,
                measures,
                candidates,
                &hints.ranking,
                &mut rng,
            );
            assert(resolves_to(None, *written, widening));
            (choice, turn)
        },
    }
}

/// The load balancers that a routing target has come to use, each with its place in turn.
#[derive(Debug)]
pub struct LoadBalancerTargetState {
    instances: Vec<(DefinitionId, usize)>,
}

/// The places in turn by definition.
pub open spec fn turns(instances: Seq<(DefinitionId, usize)>) -> Map<DefinitionId, usize>
    decreases instances.len(),
{
    if instances.len() == 0 {
        Map::empty()
    } else {
        turns(instances.drop_last()).insert(instances.last().0, instances.last().1)
    }
}

impl View for LoadBalancerTargetState {
    type V = Map<DefinitionId, usize>;

    closed spec fn view(&self) -> Map<DefinitionId, usize> {
        turns(self.instances@)
    }
}

impl Default for LoadBalancerTargetState {
    fn default() -> (state: Self)
        ensures
            state.wf(),
            state@ == Map::<DefinitionId, usize>::empty(),
    {
        LoadBalancerTargetState { instances: Vec::new() }
    }
}

/// Whether every definition occurs once.
spec fn unique_definitions(instances: Seq<(DefinitionId, usize)>) -> bool {
    forall|i: int, j: int|
        #![trigger instances[i], instances[j]]
        0 <= i < j < instances.len() ==> instances[i].0 != instances[j].0
}

proof fn lemma_turns(instances: Seq<(DefinitionId, usize)>)
    requires
        unique_definitions(instances),
    ensures
        forall|i: int|
            #![trigger instances[i]]
            0 <= i < instances.len() ==> turns(instances).contains_key(instances[i].0) && turns(
                instances,
            )[instances[i].0] == instances[i].1,
        forall|id: DefinitionId| #[trigger]
            turns(instances).contains_key(id) ==> exists|i: int|
                0 <= i < instances.len() && #[trigger] instances[i].0 == id,
        turns(instances).dom().finite(),
        turns(instances).dom().len() == instances.len(),
    decreases instances.len(),
{
    if instances.len() > 0 {
        let shorter = instances.drop_last();
        let last = instances.last();
        lemma_turns(shorter);
        assert(!turns(shorter).contains_key(last.0)) by {
            if turns(shorter).contains_key(last.0) {
                let i = choose|i: int| 0 <= i < shorter.len() && #[trigger] shorter[i].0 == last.0;
                assert(instances[i].0 != instances[instances.len() - 1].0);
            }
        }
        assert forall|i: int| #![trigger instances[i]] 0 <= i < instances.len() implies turns(
            instances,
        ).contains_key(instances[i].0) && turns(instances)[instances[i].0] == instances[i].1 by {
            if i < shorter.len() {
                assert(shorter[i] == instances[i]);
                assert(instances[i].0 != instances[instances.len() - 1].0);
            }
        }
        assert forall|id: DefinitionId| #[trigger]
            turns(instances).contains_key(id) implies exists|i: int|
            0 <= i < instances.len() && #[trigger] instances[i].0 == id by {
            if id == last.0 {
                assert(instances[instances.len() - 1].0 == id);
            } else {
                assert(turns(shorter).contains_key(id));
                let i = choose|i: int| 0 <= i < shorter.len() && #[trigger] shorter[i].0 == id;
                assert(instances[i].0 == id);
            }
        }
    }
}

proof fn lemma_turns_update(instances: Seq<(DefinitionId, usize)>, at: int, turn: usize)
    requires
        unique_definitions(instances),
        0 <= at < instances.len(),
    ensures
        unique_definitions(instances.update(at, (instances[at].0, turn))),
        turns(instances.update(at, (instances[at].0, turn))) == turns(instances).insert(
            instances[at].0,
            turn,
        ),
    decreases instances.len(),
{
    let updated = instances.update(at, (instances[at].0, turn));
    let last = instances.last();
    let shorter = instances.drop_last();
    if at == instances.len() - 1 {
        assert(updated.drop_last() =~= shorter);
        assert(turns(updated) =~= turns(instances).insert(instances[at].0, turn));
    } else {
        lemma_turns_update(shorter, at, turn);
        assert(updated.drop_last() =~= shorter.update(at, (shorter[at].0, turn)));
        assert(instances[at].0 != instances[instances.len() - 1].0);
        assert(turns(updated) =~= turns(instances).insert(instances[at].0, turn));
    }
}

impl LoadBalancerTargetState {
    /// Every definition occurs once.
    pub closed spec fn wf(&self) -> bool {
        unique_definitions(self.instances@)
    }

    /// The place in turn at which a definition stands: the first, if it was not used yet.
    pub open spec fn turn_of(&self, id: DefinitionId) -> usize {
        if self@.contains_key(id) {
            self@[id]
        } else {
            0
        }
    }

    /// How many load balancers are in use.
    pub fn instance_count(&self) -> (count: usize)
        requires
            self.wf(),
        ensures
            count == self@.dom().len(),
    {
        proof {
            lemma_turns(self.instances@);
        }
        self.instances.len()
    }

    /// Lets the load balancer of a definition choose among candidates, of which there is at least
    /// one.
    pub fn choose_for_definition<
        E: Fn(Score, Score, u64) -> bool,
        U: Fn(Score, Score, Score, Score) -> Option<Score>,
        L: Fn(u64, u64) -> Score,
    >(
        &mut self,
        definition: &LoadBalancerDefinition,
        request: &LoadBalancerRequest,
        candidates: &Vec<RoutedClusterSnapshot>,
        hints: &RoutingHints,
        measures: &Measures<E, U, L>,
    ) -> (choice: Option<LoadBalancerCandidateChoice>)
        requires
            old(self).wf(),
            definition.wf(),
            measures.total(),
            hints.wf(candidates@.len() as int),
        ensures
            final(self).wf(),
            final(self)@ == old(self)@.insert(
                definition.identity(),
                final(self).turn_of(definition.identity()),
            ),
            balances(
                definition.essence(),
                old(self).turn_of(definition.identity()),
                *request,
                candidates@,
                *hints,
                *measures,
                choice,
                final(self).turn_of(definition.identity()),
            ),
    {
        let id: DefinitionId = definition.id();
        proof {
            lemma_turns(self.instances@);
        }
        let ghost before = self.instances@;
        let mut at: usize = 0;
        while at < self.instances.len() && self.instances[at].0 != id
            invariant
                at <= self.instances@.len(),
                self.instances@ == before,
                forall|i: int| 0 <= i < at ==> (#[trigger] before[i]).0 != id,
            decreases self.instances@.len() - at,
        {
            at = at + 1;
        }
        let known: bool = at < self.instances.len();
        let turn: usize = if known {
            self.instances[at].1
        } else {
            0
        };
        proof {
            if known {
                assert(before[at as int].0 == id);
            } else if turns(before).contains_key(id) {
                let i = choose|i: int| 0 <= i < before.len() && #[trigger] before[i].0 == id;
                assert(before[i].0 != id);
            }
        }
        let (choice, after) = balance(
            definition.config(),
            turn,
            request,
            candidates,
            hints,
            measures,
        );
        if known {
            proof {
                lemma_turns_update(before, at as int, after);
            }
            self.instances.set(at, (id, after));
        } else {
            self.instances.push((id, after));
            proof {
                assert(self.instances@.drop_last() =~= before);
            }
        }
        choice
    }
}

/// Eligible candidates are chosen in turn: as many choices as there are of them, one after the
/// other, choose each of them once.
pub proof fn round_robin_visits_every_candidate(turn: int, count: int, at: int)
    requires
        0 <= turn,
        0 <= at < count,
    ensures
        exists|step: int| 0 <= step < count && #[trigger] ((turn + step) % count) == at,
        forall|step: int, other: int|
            0 <= step < other < count ==> #[trigger] ((turn + step) % count) != #[trigger] ((turn
                + other) % count),
{
    let start = turn % count;
    let step = if at >= start {
        at - start
    } else {
        at - start + count
    };
    let rounds = turn / count;
    assert(turn == rounds * count + start) by (nonlinear_arith)
        requires
            count > 0,
            start == turn % count,
            rounds == turn / count,
    ;
    assert((turn + step) % count == at) by {
        if at >= start {
            vstd::arithmetic::div_mod::lemma_fundamental_div_mod_converse(
                turn + step,
                count,
                rounds,
                at,
            );
        } else {
            assert(turn + step == (rounds + 1) * count + at) by (nonlinear_arith)
                requires
                    turn == rounds * count + start,
                    step == at - start + count,
            ;
            vstd::arithmetic::div_mod::lemma_fundamental_div_mod_converse(
                turn + step,
                count,
                rounds + 1,
                at,
            );
        }
    }
    assert forall|step: int, other: int| 0 <= step < other < count implies #[trigger] ((turn + step)
        % count) != #[trigger] ((turn + other) % count) by {
        let a = (turn + step) / count;
        let b = (turn + other) / count;
        if (turn + step) % count == (turn + other) % count {
            assert(other - step == (b - a) * count) by (nonlinear_arith)
                requires
                    count > 0,
                    a == (turn + step) / count,
                    b == (turn + other) / count,
                    (turn + step) % count == (turn + other) % count,
            ;
            assert(false) by (nonlinear_arith)
                requires
                    other - step == (b - a) * count,
                    0 < other - step < count,
            ;
        }
    }
}

proof fn lemma_places<
    E: Fn(Score, Score, u64) -> bool,
    U: Fn(Score, Score, Score, Score) -> Option<Score>,
    L: Fn(u64, u64) -> Score,
>(
    essence: ConfigEssence,
    request: LoadBalancerRequest,
    candidates: Seq<RoutedClusterSnapshot>,
    hints: RoutingHints,
    measures: Measures<E, U, L>,
    places: Seq<usize>,
    choices: Seq<Option<LoadBalancerCandidateChoice>>,
    at: int,
)
    requires
        essence.settings is RoundRobin,
        eligible_indices(request, candidates, candidates.len() as int).len() > 0,
        0 <= at <= choices.len(),
        places.len() == choices.len() + 1,
        places[0] + choices.len() <= usize::MAX,
        forall|i: int|
            0 <= i < choices.len() ==> #[trigger] balances(
                essence,
                places[i],
                request,
                candidates,
                hints,
                measures,
                choices[i],
                places[i + 1],
            ),
    ensures
        places[at] == places[0] + at,
    decreases at,
{
    if at > 0 {
        lemma_places(essence, request, candidates, hints, measures, places, choices, at - 1);
        assert(balances(
            essence,
            places[at - 1],
            request,
            candidates,
            hints,
            measures,
            choices[at - 1],
            places[at - 1 + 1],
        ));
    }
}

/// Round-robin takes the eligible clusters in their order: of two choices, the second made at the
/// place in turn that the first left, the second takes the next eligible cluster, and the first of
/// all behind the last. The place in turn must not run over.
pub proof fn the_next_choice_takes_the_next_eligible_cluster<
    E: Fn(Score, Score, u64) -> bool,
    U: Fn(Score, Score, Score, Score) -> Option<Score>,
    L: Fn(u64, u64) -> Score,
>(
    essence: ConfigEssence,
    request: LoadBalancerRequest,
    candidates: Seq<RoutedClusterSnapshot>,
    hints: RoutingHints,
    measures: Measures<E, U, L>,
    first: usize,
    second: usize,
    third: usize,
    one: LoadBalancerCandidateChoice,
    next: LoadBalancerCandidateChoice,
    k: int,
)
    requires
        essence.settings is RoundRobin,
        candidates.len() <= usize::MAX,
        first < usize::MAX,
        balances(essence, first, request, candidates, hints, measures, Some(one), second),
        balances(essence, second, request, candidates, hints, measures, Some(next), third),
        0 <= k < candidates.len(),
        !request.excludes(candidates[k].cluster_id@),
    ensures
        one.candidate_index < next.candidate_index ==> k <= one.candidate_index || k
            >= next.candidate_index,
        one.candidate_index >= next.candidate_index ==> next.candidate_index <= k
            <= one.candidate_index,
{
    let total = candidates.len() as int;
    let eligible = eligible_indices(request, candidates, total);
    let count = eligible.len() as int;
    lemma_eligible_indices(request, candidates, total);
    let at = (first as int) % count;
    let after = (second as int) % count;
    assert(after == if at + 1 == count {
        0
    } else {
        at + 1
    }) by {
        let rounds = (first as int) / count;
        assert(first as int == rounds * count + at) by (nonlinear_arith)
            requires
                count > 0,
                at == (first as int) % count,
                rounds == (first as int) / count,
        ;
        if at + 1 == count {
            assert(second as int == (rounds + 1) * count + 0) by (nonlinear_arith)
                requires
                    first as int == rounds * count + at,
                    at + 1 == count,
                    second as int == first as int + 1,
            ;
            vstd::arithmetic::div_mod::lemma_fundamental_div_mod_converse(
                second as int,
                count,
                rounds + 1,
                0,
            );
        } else {
            vstd::arithmetic::div_mod::lemma_fundamental_div_mod_converse(
                second as int,
                count,
                rounds,
                at + 1,
            );
        }
    }
    assert(eligible.contains(k as usize));
    let place = choose|place: int| 0 <= place < count && eligible[place] == k as usize;
    assert(one == chosen(eligible[at] as int) && next == chosen(eligible[after] as int));
    if place < at {
        assert(eligible[place] < eligible[at]);
    }
    if at < place {
        assert(eligible[at] < eligible[place]);
    }
    if place < after {
        assert(eligible[place] < eligible[after]);
    }
    if after < place {
        assert(eligible[after] < eligible[place]);
    }
    if at < after {
        assert(eligible[at] < eligible[after]);
    }
    if after < at {
        assert(eligible[after] < eligible[at]);
    }
}

/// Round-robin takes the eligible clusters in turn: where as many choices as there are eligible
/// clusters follow one another, each made at the place in turn that the one before it left, every
/// eligible cluster is chosen once and no other is. The place in turn must not run over meanwhile.
pub proof fn consecutive_choices_visit_every_eligible_cluster<
    E: Fn(Score, Score, u64) -> bool,
    U: Fn(Score, Score, Score, Score) -> Option<Score>,
    L: Fn(u64, u64) -> Score,
>(
    essence: ConfigEssence,
    request: LoadBalancerRequest,
    candidates: Seq<RoutedClusterSnapshot>,
    hints: RoutingHints,
    measures: Measures<E, U, L>,
    places: Seq<usize>,
    choices: Seq<Option<LoadBalancerCandidateChoice>>,
    k: int,
)
    requires
        essence.settings is RoundRobin,
        candidates.len() <= usize::MAX,
        choices.len() > 0,
        places.len() == choices.len() + 1,
        places[0] + choices.len() <= usize::MAX,
        forall|i: int|
            0 <= i < choices.len() ==> #[trigger] balances(
                essence,
                places[i],
                request,
                candidates,
                hints,
                measures,
                choices[i],
                places[i + 1],
            ),
        choices.len() == eligible_indices(request, candidates, candidates.len() as int).len(),
        0 <= k < candidates.len(),
    ensures
        !request.excludes(candidates[k].cluster_id@) ==> exists|i: int|
            0 <= i < choices.len() && (#[trigger] choices[i]) is Some
                && choices[i]->0.candidate_index == k,
        forall|i: int, j: int|
            0 <= i < j < choices.len() && (#[trigger] choices[i]) is Some && (
            #[trigger] choices[j]) is Some ==> choices[i]->0.candidate_index
                != choices[j]->0.candidate_index,
        forall|i: int|
            0 <= i < choices.len() ==> (#[trigger] choices[i]) is Some
                && choices[i]->0.candidate_index < candidates.len() && !request.excludes(
                candidates[choices[i]->0.candidate_index as int].cluster_id@,
            ),
{
    let total = candidates.len() as int;
    let count = choices.len() as int;
    let eligible = eligible_indices(request, candidates, total);
    lemma_eligible_indices(request, candidates, total);
    let turn = places[0] as int;
    assert forall|i: int| 0 <= i < count implies (#[trigger] choices[i]) == Some(
        chosen(eligible[(turn + i) % count] as int),
    ) by {
        lemma_places(essence, request, candidates, hints, measures, places, choices, i);
        assert(balances(
            essence,
            places[i],
            request,
            candidates,
            hints,
            measures,
            choices[i],
            places[i + 1],
        ));
    }
    assert forall|i: int| 0 <= i < count implies (#[trigger] choices[i]) is Some
        && choices[i]->0.candidate_index < candidates.len() && !request.excludes(
        candidates[choices[i]->0.candidate_index as int].cluster_id@,
    ) by {
        assert(choices[i] == Some(chosen(eligible[(turn + i) % count] as int)));
        assert(eligible[(turn + i) % count] < total);
    }
    round_robin_visits_every_candidate(turn, count, 0);
    assert forall|i: int, j: int|
        0 <= i < j < count && (#[trigger] choices[i]) is Some && (
        #[trigger] choices[j]) is Some implies choices[i]->0.candidate_index
        != choices[j]->0.candidate_index by {
        let a = (turn + i) % count;
        let b = (turn + j) % count;
        assert(a != b);
        assert(eligible[a] != eligible[b]);
        assert(choices[i] == Some(chosen(eligible[a] as int)));
        assert(choices[j] == Some(chosen(eligible[b] as int)));
    }
    if !request.excludes(candidates[k].cluster_id@) {
        assert(eligible.contains(k as usize));
        let at = choose|at: int| 0 <= at < eligible.len() && eligible[at] == k as usize;
        round_robin_visits_every_candidate(turn, count, at);
        let step = choose|step: int| 0 <= step < count && #[trigger] ((turn + step) % count) == at;
        assert(choices[step] == Some(chosen(eligible[at] as int)));
    }
}

} // verus!
