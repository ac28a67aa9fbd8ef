//! Which load balancer a request goes through.

use super::algorithm::{
    LoadBalancerAlgorithm, LoadBalancerAlgorithmOverride, LoadBalancerRoutingAlgorithmError,
};
use super::comparator::{ClusterComparator, ClusterComparatorTrace};
use super::config::{
    comparator_of, entry_essence, entry_request_algorithms, unset_essence, ConfigEssence,
    LoadBalancerAlgorithmConfig, LoadBalancerAlgorithmSettings, LoadBalancerConfig,
    LoadBalancerConfigError, LoadBalancerModelConfig,
};
use super::measures::Measures;
use super::power_of_n::PowerOfNLoadBalancer;
use super::random::sample_size;
use super::request::{
    eligible_indices, LoadBalancerCandidateChoice, LoadBalancerRequest, RoutedClusterSnapshot,
};
use super::score::Score;
use super::target_state::{
    balances, settings_error, DefinitionId, LoadBalancerDefinition, LoadBalancerTargetState,
    RoutingHints,
};
use crate::text::same_text;
use crate::trace::{
    record_sample_to_span, record_views, sample_record, FieldValue, FieldView, SpanField,
};
use vstd::prelude::*;

verus! {

/// The load balancer that is configured, and those that a request may pick instead.
pub struct LoadBalancerAlgorithmConfigSet {
    configured: LoadBalancerDefinition,
    request_algorithms: Vec<LoadBalancerDefinition>,
}

/// The algorithm of a definition.
pub open spec fn algorithm_of(definition: LoadBalancerDefinition) -> LoadBalancerAlgorithm {
    definition.essence().settings.chosen_algorithm()
}

/// The first definition of an algorithm, from `from` on.
pub open spec fn first_of(
    definitions: Seq<LoadBalancerDefinition>,
    algorithm: LoadBalancerAlgorithm,
    from: int,
) -> Option<LoadBalancerDefinition>
    decreases definitions.len() - from,
{
    if from >= definitions.len() {
        None
    } else if algorithm_of(definitions[from]) == algorithm {
        Some(definitions[from])
    } else {
        first_of(definitions, algorithm, from + 1)
    }
}

impl LoadBalancerAlgorithmConfigSet {
    /// The load balancer that is configured.
    pub closed spec fn configured(&self) -> LoadBalancerDefinition {
        self.configured
    }

    /// The load balancers that a request may pick instead.
    pub closed spec fn pickable(&self) -> Seq<LoadBalancerDefinition> {
        self.request_algorithms@
    }

    /// Every load balancer can be made, and its configuration carries no entries for others.
    pub open spec fn wf(&self) -> bool {
        &&& self.configured().wf()
        &&& self.configured().entries().len() == 0
        &&& forall|i: int|
            0 <= i < self.pickable().len() ==> (#[trigger] self.pickable()[i]).wf()
                && self.pickable()[i].entries().len() == 0
    }

    /// Whether the set is made from a configuration: the configured load balancer from its
    /// essence, the others from the entries, each for its algorithm.
    pub open spec fn made_from(
        &self,
        essence: ConfigEssence,
        entries: Seq<(LoadBalancerAlgorithm, LoadBalancerModelConfig)>,
    ) -> bool {
        &&& self.configured().essence() == essence
        &&& self.pickable().len() == entries.len()
        &&& forall|i: int|
            0 <= i < entries.len() ==> {
                &&& (#[trigger] self.pickable()[i]).essence() == entry_essence(entries[i].1)
                &&& algorithm_of(self.pickable()[i]) == entries[i].0
            }
    }

    /// Whether every load balancer of the set is told apart by the router, the place of the set
    /// in it and its own place in the set.
    pub open spec fn placed_at(&self, router: u64, set: int) -> bool {
        &&& self.configured().identity() == (DefinitionId { router, set: set as usize, slot: 0 })
        &&& forall|i: int|
            0 <= i < self.pickable().len() ==> (#[trigger] self.pickable()[i]).identity() == (
            DefinitionId { router, set: set as usize, slot: (i + 1) as usize })
    }

    /// The load balancer for an algorithm that a request may pick.
    fn find(&self, algorithm: LoadBalancerAlgorithm) -> (found: Option<&LoadBalancerDefinition>)
        ensures
            match (found, first_of(self.pickable(), algorithm, 0)) {
                (Some(definition), Some(expected)) => *definition == expected,
                (None, None) => true,
                _ => false,
            },
    {
        let mut at: usize = 0;
        while at < self.request_algorithms.len()
            invariant
                at <= self.request_algorithms@.len(),
                first_of(self.pickable(), algorithm, 0) == first_of(
                    self.pickable(),
                    algorithm,
                    at as int,
                ),
            decreases self.request_algorithms@.len() - at,
        {
            if self.request_algorithms[at].config().algorithm() == algorithm {
                return Some(&self.request_algorithms[at]);
            }
            at = at + 1;
        }
        None
    }
}

/// Why an entry for an algorithm is refused, if it is: it configures another algorithm, or no load
/// balancer can be made with it.
pub open spec fn entry_error(entry: (LoadBalancerAlgorithm, LoadBalancerModelConfig)) -> Option<
    LoadBalancerConfigError,
> {
    let settings = entry_essence(entry.1).settings;
    if settings.chosen_algorithm() != entry.0 {
        Some(
            LoadBalancerConfigError::RequestAlgorithmMismatch {
                key: entry.0,
                configured: settings.chosen_algorithm(),
            },
        )
    } else {
        settings_error(settings)
    }
}

/// Why the first refused entry from `from` on is refused, if one is.
pub open spec fn entries_error(
    entries: Seq<(LoadBalancerAlgorithm, LoadBalancerModelConfig)>,
    from: int,
) -> Option<LoadBalancerConfigError>
    decreases entries.len() - from,
{
    if from >= entries.len() {
        None
    } else if entry_error(entries[from]) is Some {
        entry_error(entries[from])
    } else {
        entries_error(entries, from + 1)
    }
}

/// Why a set is refused, if it is.
pub open spec fn set_error(
    essence: ConfigEssence,
    entries: Seq<(LoadBalancerAlgorithm, LoadBalancerModelConfig)>,
) -> Option<LoadBalancerConfigError> {
    if settings_error(essence.settings) is Some {
        settings_error(essence.settings)
    } else {
        entries_error(entries, 0)
    }
}

/// Why the first refused model from `from` on is refused, if one is.
pub open spec fn models_error(
    models: Seq<(String, LoadBalancerModelConfig)>,
    from: int,
) -> Option<LoadBalancerConfigError>
    decreases models.len() - from,
{
    if from >= models.len() {
        None
    } else {
        let error = set_error(
            entry_essence(models[from].1),
            entry_request_algorithms(models[from].1),
        );
        if error is Some {
            error
        } else {
            models_error(models, from + 1)
        }
    }
}

/// Why a configuration is refused, if it is.
pub open spec fn config_error(config: LoadBalancerConfig) -> Option<LoadBalancerConfigError> {
    let error = set_error(unset_essence(config.default), config.request_algorithms@);
    if error is Some {
        error
    } else {
        models_error(config.models@, 0)
    }
}

/// Routes requests through load balancers, by model and by what requests pick.
pub struct LoadBalancerRouter {
    default_config: LoadBalancerAlgorithmConfigSet,
    per_model_config: Vec<(String, LoadBalancerAlgorithmConfigSet)>,
}

/// The set of the first entry of a model, from `from` on, or the default.
pub open spec fn set_of_model(
    models: Seq<(String, LoadBalancerAlgorithmConfigSet)>,
    default: LoadBalancerAlgorithmConfigSet,
    model_id: Seq<char>,
    from: int,
) -> LoadBalancerAlgorithmConfigSet
    decreases models.len() - from,
{
    if from >= models.len() {
        default
    } else if models[from].0@ == model_id {
        models[from].1
    } else {
        set_of_model(models, default, model_id, from + 1)
    }
}

/// The load balancer that a request goes through, and what it picked, if it did.
pub struct LoadBalancerAlgorithmResolution<'a> {
    definition: &'a LoadBalancerDefinition,
    requested_algorithm: Option<String>,
}

impl<'a> LoadBalancerAlgorithmResolution<'a> {
    /// The load balancer.
    pub closed spec fn resolved(&self) -> LoadBalancerDefinition {
        *self.definition
    }

    /// What the request picked.
    pub closed spec fn requested(&self) -> Option<Seq<char>> {
        crate::text::optional_text(self.requested_algorithm)
    }

    /// The configuration of the load balancer.
    pub fn config(&self) -> (config: &LoadBalancerAlgorithmConfig)
        ensures
            config.essence() == self.resolved().essence(),
            config.request_algorithms@ == self.resolved().entries(),
    {
        self.definition.config()
    }

    /// What is recorded of the sample when a choice is made among candidates.
    pub fn sample_records(
        &self,
        request: &LoadBalancerRequest,
        candidates: &Vec<RoutedClusterSnapshot>,
    ) -> (records: Vec<(SpanField, FieldValue)>)
        ensures
            record_views(records@) == recorded_sample(
                self.resolved().essence().settings,
                *request,
                candidates@,
            ),
    {
        if candidates.len() > 0 {
            if let LoadBalancerAlgorithmSettings::PowerOfN(written) = &self.config().settings {
                let balancer = PowerOfNLoadBalancer {
                    sample_count: written.sample_count,
                    comparator: ClusterComparator::default(),
                };
                let effective: usize = balancer.effective_sample_count(request, candidates);
                return record_sample_to_span(written.sample_count, effective);
            }
        }
        let records: Vec<(SpanField, FieldValue)> = Vec::new();
        assert(record_views(records@) =~= Seq::empty());
        records
    }
}

/// What is recorded of the sample when a choice is made among candidates: what `power-of-n` is
/// asked to sample, and how many of the candidates it compares. The others draw no such sample,
/// and among no candidates nothing is chosen.
pub open spec fn recorded_sample(
    settings: LoadBalancerAlgorithmSettings,
    request: LoadBalancerRequest,
    candidates: Seq<RoutedClusterSnapshot>,
) -> Seq<(SpanField, FieldView)> {
    match settings {
        LoadBalancerAlgorithmSettings::PowerOfN(config) if candidates.len() > 0 => sample_record(
            config.sample_count,
            sample_size(
                config.sample_count as int,
                eligible_indices(request, candidates, candidates.len() as int).len() as int,
            ) as usize,
        ),
        _ => Seq::empty(),
    }
}

/// The cluster that a request goes to, and how it was chosen.
#[derive(Clone, Debug)]
pub struct LoadBalancerCandidateSelection {
    pub choice: LoadBalancerCandidateChoice,
    pub effective_algorithm: LoadBalancerAlgorithm,
    pub requested_algorithm: Option<String>,
    pub comparator: Option<ClusterComparatorTrace>,
}

/// The load balancer that a request goes through: the configured one, unless the request picks
/// another algorithm. Of that, the model's own entry counts before the entry for all models.
pub open spec fn resolve(
    set: LoadBalancerAlgorithmConfigSet,
    default: LoadBalancerAlgorithmConfigSet,
    picked: Option<LoadBalancerAlgorithm>,
) -> Option<LoadBalancerDefinition> {
    match picked {
        None => Some(set.configured()),
        Some(algorithm) => if algorithm_of(set.configured()) == algorithm {
            Some(set.configured())
        } else if first_of(set.pickable(), algorithm, 0) is Some {
            first_of(set.pickable(), algorithm, 0)
        } else {
            first_of(default.pickable(), algorithm, 0)
        },
    }
}

proof fn lemma_first_of(
    definitions: Seq<LoadBalancerDefinition>,
    algorithm: LoadBalancerAlgorithm,
    from: int,
)
    requires
        0 <= from,
    ensures
        first_of(definitions, algorithm, from) matches Some(found) ==> algorithm_of(found)
            == algorithm && definitions.contains(found),
    decreases definitions.len() - from,
{
    if from < definitions.len() {
        if algorithm_of(definitions[from]) == algorithm {
            assert(definitions[from] == definitions[from]);
        } else {
            lemma_first_of(definitions, algorithm, from + 1);
        }
    }
}

/// A request that picks an algorithm goes through a load balancer of that algorithm, or through
/// none.
pub proof fn picked_algorithm_is_followed(
    set: LoadBalancerAlgorithmConfigSet,
    default: LoadBalancerAlgorithmConfigSet,
    algorithm: LoadBalancerAlgorithm,
)
    ensures
        resolve(set, default, Some(algorithm)) matches Some(found) ==> algorithm_of(found)
            == algorithm,
{
    lemma_first_of(set.pickable(), algorithm, 0);
    lemma_first_of(default.pickable(), algorithm, 0);
}

/// The configured algorithm can always be picked, and picking it changes nothing.
pub proof fn configured_algorithm_can_be_picked(
    set: LoadBalancerAlgorithmConfigSet,
    default: LoadBalancerAlgorithmConfigSet,
)
    ensures
        resolve(set, default, Some(algorithm_of(set.configured()))) == resolve(set, default, None),
        resolve(set, default, None) == Some(set.configured()),
{
}

/// What can be picked for every model can be picked for each model.
pub proof fn entries_for_all_models_are_inherited(
    set: LoadBalancerAlgorithmConfigSet,
    default: LoadBalancerAlgorithmConfigSet,
    algorithm: LoadBalancerAlgorithm,
)
    ensures
        first_of(default.pickable(), algorithm, 0) is Some ==> resolve(
            set,
            default,
            Some(algorithm),
        ) is Some,
        resolve(set, default, Some(algorithm)) is None <==> algorithm_of(set.configured())
            != algorithm && first_of(set.pickable(), algorithm, 0) is None && first_of(
            default.pickable(),
            algorithm,
            0,
        ) is None,
{
}

fn build_request_algorithm_configs(
    router: u64,
    set: usize,
    request_algorithms: Vec<(LoadBalancerAlgorithm, LoadBalancerModelConfig)>,
) -> (definitions: Result<Vec<LoadBalancerDefinition>, LoadBalancerConfigError>)
    ensures
        match definitions {
            Ok(made) => {
                &&& entries_error(request_algorithms@, 0) is None
                &&& made@.len() == request_algorithms@.len()
                &&& forall|i: int|
                    0 <= i < made@.len() ==> {
                        &&& (#[trigger] made@[i]).wf()
                        &&& made@[i].entries().len() == 0
                        &&& made@[i].essence() == entry_essence(request_algorithms@[i].1)
                        &&& algorithm_of(made@[i]) == request_algorithms@[i].0
                        &&& made@[i].identity() == (DefinitionId {
                            router,
                            set,
                            slot: (i + 1) as usize,
                        })
                    }
            },
            Err(error) => entries_error(request_algorithms@, 0) == Some(error),
        },
{
    let ghost entries = request_algorithms@;
    let total: usize = request_algorithms.len();
    let mut remaining: Vec<(LoadBalancerAlgorithm, LoadBalancerModelConfig)> = request_algorithms;
    let mut definitions: Vec<LoadBalancerDefinition> = Vec::new();
    while remaining.len() > 0
        invariant
            definitions@.len() + remaining@.len() == entries.len() == total,
            entries == request_algorithms@,
            forall|i: int|
                0 <= i < remaining@.len() ==> #[trigger] remaining@[i] == entries[i
                    + definitions@.len()],
            entries_error(entries, 0) == entries_error(entries, definitions@.len() as int),
            forall|i: int|
                0 <= i < definitions@.len() ==> {
                    &&& (#[trigger] definitions@[i]).wf()
                    &&& definitions@[i].entries().len() == 0
                    &&& definitions@[i].essence() == entry_essence(entries[i].1)
                    &&& algorithm_of(definitions@[i]) == entries[i].0
                    &&& definitions@[i].identity() == (DefinitionId {
                        router,
                        set,
                        slot: (i + 1) as usize,
                    })
                },
        decreases remaining@.len(),
    {
        let ghost earlier = remaining@;
        let (algorithm, entry) = remaining.remove(0);
        let ghost at = definitions@.len() as int;
        assert(earlier[0] == entries[at]);
        let mut config: LoadBalancerAlgorithmConfig = entry.into_algorithm_config();
        let configured: LoadBalancerAlgorithm = config.algorithm();
        if configured != algorithm {
            return Err(
                LoadBalancerConfigError::RequestAlgorithmMismatch { key: algorithm, configured },
            );
        }
        config.request_algorithms = Vec::new();
        let slot: usize = definitions.len() + 1;
        match LoadBalancerDefinition::new(DefinitionId { router, set, slot }, config) {
            Ok(definition) => definitions.push(definition),
            Err(error) => return Err(error),
        }
        assert forall|i: int| 0 <= i < remaining@.len() implies #[trigger] remaining@[i]
            == entries[i + definitions@.len()] by {
            assert(remaining@[i] == earlier[i + 1]);
        }
    }
    Ok(definitions)
}

fn build_algorithm_config_set(
    router: u64,
    set: usize,
    configured: LoadBalancerAlgorithmConfig,
    request_algorithms: Vec<(LoadBalancerAlgorithm, LoadBalancerModelConfig)>,
) -> (built: Result<LoadBalancerAlgorithmConfigSet, LoadBalancerConfigError>)
    requires
        configured.request_algorithms@.len() == 0,
    ensures
        match built {
            Ok(made) => {
                &&& set_error(configured.essence(), request_algorithms@) is None
                &&& made.wf()
                &&& made.made_from(configured.essence(), request_algorithms@)
                &&& made.placed_at(router, set as int)
            },
            Err(error) => set_error(configured.essence(), request_algorithms@) == Some(error),
        },
{
    let configured: LoadBalancerDefinition = match LoadBalancerDefinition::new(
        DefinitionId { router, set, slot: 0 },
        configured,
    ) {
        Ok(definition) => definition,
        Err(error) => return Err(error),
    };
    match build_request_algorithm_configs(router, set, request_algorithms) {
        Ok(request_algorithms) => Ok(
            LoadBalancerAlgorithmConfigSet { configured, request_algorithms },
        ),
        Err(error) => Err(error),
    }
}

impl LoadBalancerRouter {
    /// The set for models without an entry.
    pub closed spec fn default_set(&self) -> LoadBalancerAlgorithmConfigSet {
        self.default_config
    }

    /// The sets of models with an entry.
    pub closed spec fn model_sets(&self) -> Seq<(String, LoadBalancerAlgorithmConfigSet)> {
        self.per_model_config@
    }

    /// Every load balancer can be made.
    pub open spec fn wf(&self) -> bool {
        &&& self.default_set().wf()
        &&& forall|i: int|
            0 <= i < self.model_sets().len() ==> (#[trigger] self.model_sets()[i]).1.wf()
    }

    /// The set of a model.
    pub open spec fn set_for(&self, model_id: Seq<char>) -> LoadBalancerAlgorithmConfigSet {
        set_of_model(self.model_sets(), self.default_set(), model_id, 0)
    }

    /// The load balancer that a request for a model goes through.
    pub open spec fn resolved(
        &self,
        model_id: Seq<char>,
        picked: Option<LoadBalancerAlgorithm>,
    ) -> Option<LoadBalancerDefinition> {
        resolve(self.set_for(model_id), self.default_set(), picked)
    }

    /// A router for a configuration. `router_id` tells its load balancers from those of other
    /// routers.
    pub fn from_config(config: LoadBalancerConfig, router_id: u64) -> (router: Result<
        Self,
        LoadBalancerConfigError,
    >)
        ensures
            match router {
                Ok(made) => {
                    &&& config_error(config) is None
                    &&& made.wf()
                    &&& made.default_set().made_from(
                        unset_essence(config.default),
                        config.request_algorithms@,
                    )
                    &&& made.default_set().placed_at(router_id, 0)
                    &&& made.model_sets().len() == config.models@.len()
                    &&& forall|i: int|
                        0 <= i < config.models@.len() ==> {
                            &&& (#[trigger] made.model_sets()[i]).0@ == config.models@[i].0@
                            &&& made.model_sets()[i].1.made_from(
                                entry_essence(config.models@[i].1),
                                entry_request_algorithms(config.models@[i].1),
                            )
                            &&& made.model_sets()[i].1.placed_at(router_id, i + 1)
                        }
                },
                Err(error) => config_error(config) == Some(error),
            },
    {
        let default_config: LoadBalancerAlgorithmConfigSet = match build_algorithm_config_set(
            router_id,
            0,
            LoadBalancerAlgorithmConfig::new(config.default),
            config.request_algorithms,
        ) {
            Ok(set) => set,
            Err(error) => return Err(error),
        };
        let ghost models = config.models@;
        let total: usize = config.models.len();
        let mut remaining: Vec<(String, LoadBalancerModelConfig)> = config.models;
        let mut per_model_config: Vec<(String, LoadBalancerAlgorithmConfigSet)> = Vec::new();
        while remaining.len() > 0
            invariant
                per_model_config@.len() + remaining@.len() == models.len() == total,
                models == config.models@,
                set_error(unset_essence(config.default), config.request_algorithms@) is None,
                forall|i: int|
                    0 <= i < remaining@.len() ==> #[trigger] remaining@[i] == models[i
                        + per_model_config@.len()],
                models_error(models, 0) == models_error(models, per_model_config@.len() as int),
                forall|i: int|
                    0 <= i < per_model_config@.len() ==> {
                        &&& (#[trigger] per_model_config@[i]).1.wf()
                        &&& per_model_config@[i].0@ == models[i].0@
                        &&& per_model_config@[i].1.made_from(
                            entry_essence(models[i].1),
                            entry_request_algorithms(models[i].1),
                        )
                        &&& per_model_config@[i].1.placed_at(router_id, i + 1)
                    },
            decreases remaining@.len(),
        {
            let ghost earlier = remaining@;
            let (model_id, entry) = remaining.remove(0);
            let ghost at = per_model_config@.len() as int;
            assert(earlier[0] == models[at]);
            let mut algorithm_config: LoadBalancerAlgorithmConfig = entry.into_algorithm_config();
            let mut request_algorithms: Vec<(LoadBalancerAlgorithm, LoadBalancerModelConfig)> =
                Vec::new();
            std::mem::swap(&mut request_algorithms, &mut algorithm_config.request_algorithms);
            let set: usize = per_model_config.len() + 1;
            match build_algorithm_config_set(
                router_id,
                set,
                algorithm_config,
                request_algorithms,
            ) {
                Ok(built) => per_model_config.push((model_id, built)),
                Err(error) => return Err(error),
            }
            assert forall|i: int| 0 <= i < remaining@.len() implies #[trigger] remaining@[i]
                == models[i + per_model_config@.len()] by {
                assert(remaining@[i] == earlier[i + 1]);
            }
        }
        Ok(LoadBalancerRouter { default_config, per_model_config })
    }

    /// The set of a model.
    pub fn algorithm_config_set(&self, model_id: &str) -> (set: &LoadBalancerAlgorithmConfigSet)
        ensures
            *set == self.set_for(model_id@),
    {
        let mut at: usize = 0;
        while at < self.per_model_config.len()
            invariant
                at <= self.per_model_config@.len(),
                self.set_for(model_id@) == set_of_model(
                    self.model_sets(),
                    self.default_set(),
                    model_id@,
                    at as int,
                ),
            decreases self.per_model_config@.len() - at,
        {
            if same_text(self.per_model_config[at].0.as_str(), model_id) {
                return &self.per_model_config[at].1;
            }
            at = at + 1;
        }
        &self.default_config
    }

    /// The load balancer of the algorithm that a request picked: the configured one where it has
    /// that algorithm, else the model's entry for it, else the entry for all models.
    pub fn request_algorithm_config_for_override<'a>(
        &'a self,
        config_set: &'a LoadBalancerAlgorithmConfigSet,
        algorithm_override: &LoadBalancerAlgorithmOverride,
    ) -> (definition: Result<&'a LoadBalancerDefinition, LoadBalancerRoutingAlgorithmError>)
        ensures
            match (
                definition,
                resolve(*config_set, self.default_set(), Some(algorithm_override.picked())),
            ) {
                (Ok(found), Some(expected)) => *found == expected,
                (
                    Err(LoadBalancerRoutingAlgorithmError::Unavailable { raw, algorithm }),
                    None,
                ) => raw@ == algorithm_override.raw() && algorithm == algorithm_override.picked(),
                _ => false,
            },
    {
        let algorithm: LoadBalancerAlgorithm = algorithm_override.algorithm();
        if config_set.configured.config().algorithm() == algorithm {
            return Ok(&config_set.configured);
        }
        if let Some(definition) = config_set.find(algorithm) {
            return Ok(definition);
        }
        if let Some(definition) = self.default_config.find(algorithm) {
            return Ok(definition);
        }
        Err(
            LoadBalancerRoutingAlgorithmError::Unavailable {
                raw: algorithm_override.requested_algorithm().to_owned(),
                algorithm,
            },
        )
    }

    /// Chooses a cluster for a request by the algorithm that is configured for its model. Without
    /// candidates nothing happens.
    pub fn choose_candidate<
        E: Fn(Score, Score, u64) -> bool,
        U: Fn(Score, Score, Score, Score) -> Option<Score>,
        L: Fn(u64, u64) -> Score,
    >(
        &self,
        target_state: &mut LoadBalancerTargetState,
        request: &LoadBalancerRequest,
        candidates: &Vec<RoutedClusterSnapshot>,
        hints: &RoutingHints,
        measures: &Measures<E, U, L>,
    ) -> (choice: Option<LoadBalancerCandidateChoice>)
        requires
            self.wf(),
            old(target_state).wf(),
            measures.total(),
            hints.wf(candidates@.len() as int),
        ensures
            final(target_state).wf(),
            chosen_through(
                self.set_for(request.routing_target.model_id@).configured(),
                *old(target_state),
                *request,
                candidates@,
                *hints,
                *measures,
                choice,
                *final(target_state),
            ),
    {
        if candidates.len() == 0 {
            return None;
        }
        proof {
            lemma_set_wf(*self, request.routing_target.model_id@, 0);
        }
        let set: &LoadBalancerAlgorithmConfigSet = self.algorithm_config_set(
            request.routing_target.model_id.as_str(),
        );
        target_state.choose_for_definition(&set.configured, request, candidates, hints, measures)
    }

    /// Chooses a cluster for a request by the algorithm that it picked, else by the configured
    /// one.
    pub fn choose_candidate_with_algorithm_override<
        E: Fn(Score, Score, u64) -> bool,
        U: Fn(Score, Score, Score, Score) -> Option<Score>,
        L: Fn(u64, u64) -> Score,
    >(
        &self,
        target_state: &mut LoadBalancerTargetState,
        request: &LoadBalancerRequest,
        candidates: &Vec<RoutedClusterSnapshot>,
        algorithm_override: Option<&LoadBalancerAlgorithmOverride>,
        hints: &RoutingHints,
        measures: &Measures<E, U, L>,
    ) -> (selection: Result<
        Option<LoadBalancerCandidateSelection>,
        LoadBalancerRoutingAlgorithmError,
    >)
        requires
            self.wf(),
            old(target_state).wf(),
            measures.total(),
            hints.wf(candidates@.len() as int),
        ensures
            final(target_state).wf(),
            match (
                selection,
                self.resolved(request.routing_target.model_id@, picked_by(algorithm_override)),
            ) {
                (Ok(made), Some(definition)) => selected_through(
                    definition,
                    asked_by(algorithm_override),
                    *old(target_state),
                    *request,
                    candidates@,
                    *hints,
                    *measures,
                    made,
                    *final(target_state),
                ),
                (
                    Err(LoadBalancerRoutingAlgorithmError::Unavailable { raw, algorithm }),
                    None,
                ) => {
                    &&& Some(raw@) == asked_by(algorithm_override)
                    &&& Some(algorithm) == picked_by(algorithm_override)
                    &&& *final(target_state) == *old(target_state)
                },
                _ => false,
            },
    {
        match self.resolve_algorithm_override(
            request.routing_target.model_id.as_str(),
            algorithm_override,
        ) {
            Ok(resolution) => Ok(
                self.choose_candidate_with_algorithm_resolution(
                    target_state,
                    request,
                    candidates,
                    &resolution,
                    hints,
                    measures,
                ),
            ),
            Err(error) => Err(error),
        }
    }

    /// Chooses a cluster for a request through a load balancer that was resolved before.
    pub fn choose_candidate_with_algorithm_resolution<
        E: Fn(Score, Score, u64) -> bool,
        U: Fn(Score, Score, Score, Score) -> Option<Score>,
        L: Fn(u64, u64) -> Score,
    >(
        &self,
        target_state: &mut LoadBalancerTargetState,
        request: &LoadBalancerRequest,
        candidates: &Vec<RoutedClusterSnapshot>,
        resolution: &LoadBalancerAlgorithmResolution<'_>,
        hints: &RoutingHints,
        measures: &Measures<E, U, L>,
    ) -> (selection: Option<LoadBalancerCandidateSelection>)
        requires
            old(target_state).wf(),
            resolution.resolved().wf(),
            measures.total(),
            hints.wf(candidates@.len() as int),
        ensures
            final(target_state).wf(),
            selected_through(
                resolution.resolved(),
                resolution.requested(),
                *old(target_state),
                *request,
                candidates@,
                *hints,
                *measures,
                selection,
                *final(target_state),
            ),
    {
        if candidates.len() == 0 {
            return None;
        }
        let choice: Option<LoadBalancerCandidateChoice> = target_state.choose_for_definition(
            resolution.definition,
            request,
            candidates,
            hints,
            measures,
        );
        let effective_algorithm: LoadBalancerAlgorithm = resolution.config().algorithm();
        let comparator: Option<ClusterComparator> = resolution.config().comparator();
        match choice {
            None => None,
            Some(choice) => {
                proof {
                    super::laws::chosen_candidate_exists(
                        resolution.resolved().essence(),
                        old(target_state).turn_of(resolution.resolved().identity()),
                        *request,
                        candidates@,
                        *hints,
                        *measures,
                        Some(choice),
                        target_state.turn_of(resolution.resolved().identity()),
                    );
                }
                Some(
                    LoadBalancerCandidateSelection {
                        choice,
                        effective_algorithm,
                        requested_algorithm: crate::text::copy_optional_text(
                            &resolution.requested_algorithm,
                        ),
                        comparator: match comparator {
                            Some(comparator) => Some(
                                comparator.trace(&candidates[choice.candidate_index]),
                            ),
                            None => None,
                        },
                    },
                )
            },
        }
    }

    /// The name of the algorithm that is configured for a model.
    pub fn algorithm_name(&self, model_id: &str) -> (name: String)
        ensures
            name@ == algorithm_of(self.set_for(model_id@).configured()).label(),
    {
        self.algorithm_config(model_id).algorithm().as_str().to_owned()
    }

    /// What is configured for a model, without the entries for other algorithms.
    pub fn algorithm_config(&self, model_id: &str) -> (config: &LoadBalancerAlgorithmConfig)
        ensures
            config.essence() == self.set_for(model_id@).configured().essence(),
            config.request_algorithms@ == self.set_for(model_id@).configured().entries(),
            self.wf() ==> config.request_algorithms@.len() == 0,
    {
        proof {
            if self.wf() {
                lemma_set_wf(*self, model_id@, 0);
            }
        }
        self.algorithm_config_set(model_id).configured.config()
    }

    /// The load balancer that a request for a model goes through, given what it picked.
    pub fn resolve_algorithm_override(
        &self,
        model_id: &str,
        algorithm_override: Option<&LoadBalancerAlgorithmOverride>,
    ) -> (resolution: Result<
        LoadBalancerAlgorithmResolution<'_>,
        LoadBalancerRoutingAlgorithmError,
    >)
        requires
            self.wf(),
        ensures
            match (resolution, self.resolved(model_id@, picked_by(algorithm_override))) {
                (Ok(made), Some(definition)) => {
                    &&& made.resolved() == definition
                    &&& made.resolved().wf()
                    &&& made.resolved().entries().len() == 0
                    &&& made.requested() == asked_by(algorithm_override)
                },
                (
                    Err(LoadBalancerRoutingAlgorithmError::Unavailable { raw, algorithm }),
                    None,
                ) => Some(raw@) == asked_by(algorithm_override) && Some(algorithm) == picked_by(
                    algorithm_override,
                ),
                _ => false,
            },
    {
        let config_set: &LoadBalancerAlgorithmConfigSet = self.algorithm_config_set(model_id);
        proof {
            lemma_set_wf(*self, model_id@, 0);
            if let Some(picked) = picked_by(algorithm_override) {
                lemma_first_of(config_set.pickable(), picked, 0);
                lemma_first_of(self.default_set().pickable(), picked, 0);
            }
        }
        match algorithm_override {
            Some(algorithm_override) => {
                match self.request_algorithm_config_for_override(config_set, algorithm_override) {
                    Ok(definition) => Ok(
                        LoadBalancerAlgorithmResolution {
                            definition,
                            requested_algorithm: Some(
                                algorithm_override.requested_algorithm().to_owned(),
                            ),
                        },
                    ),
                    Err(error) => Err(error),
                }
            },
            None => Ok(
                LoadBalancerAlgorithmResolution {
                    definition: &config_set.configured,
                    requested_algorithm: None,
                },
            ),
        }
    }
}

/// The algorithm that a request picked, if it did.
pub open spec fn picked_by(algorithm_override: Option<&LoadBalancerAlgorithmOverride>) -> Option<
    LoadBalancerAlgorithm,
> {
    match algorithm_override {
        Some(picked) => Some(picked.picked()),
        None => None,
    }
}

/// What a request wrote to pick an algorithm, if it did.
pub open spec fn asked_by(algorithm_override: Option<&LoadBalancerAlgorithmOverride>) -> Option<
    Seq<char>,
> {
    match algorithm_override {
        Some(picked) => Some(picked.raw()),
        None => None,
    }
}

proof fn lemma_set_wf(router: LoadBalancerRouter, model_id: Seq<char>, from: int)
    requires
        router.wf(),
        0 <= from,
    ensures
        set_of_model(router.model_sets(), router.default_set(), model_id, from).wf(),
    decreases router.model_sets().len() - from,
{
    if from < router.model_sets().len() {
        assert(router.model_sets()[from].1.wf());
        lemma_set_wf(router, model_id, from + 1);
    }
}

/// Whether a choice, and the state of the routing target after it, are what a load balancer can
/// come to. Without candidates nothing happens; else the load balancer is in use from then on.
pub open spec fn chosen_through<
    E: Fn(Score, Score, u64) -> bool,
    U: Fn(Score, Score, Score, Score) -> Option<Score>,
    L: Fn(u64, u64) -> Score,
>(
    definition: LoadBalancerDefinition,
    before: LoadBalancerTargetState,
    request: LoadBalancerRequest,
    candidates: Seq<RoutedClusterSnapshot>,
    hints: RoutingHints,
    measures: Measures<E, U, L>,
    choice: Option<LoadBalancerCandidateChoice>,
    after: LoadBalancerTargetState,
) -> bool {
    if candidates.len() == 0 {
        choice is None && after == before
    } else {
        &&& after@ == before@.insert(
            definition.identity(),
            after.turn_of(definition.identity()),
        )
        &&& balances(
            definition.essence(),
            before.turn_of(definition.identity()),
            request,
            candidates,
            hints,
            measures,
            choice,
            after.turn_of(definition.identity()),
        )
    }
}

/// Whether a selection, and the state of the routing target after it, are what a load balancer
/// can come to, reported with its algorithm, what the request asked for, and the score by which
/// the cluster was chosen.
pub open spec fn selected_through<
    E: Fn(Score, Score, u64) -> bool,
    U: Fn(Score, Score, Score, Score) -> Option<Score>,
    L: Fn(u64, u64) -> Score,
>(
    definition: LoadBalancerDefinition,
    asked: Option<Seq<char>>,
    before: LoadBalancerTargetState,
    request: LoadBalancerRequest,
    candidates: Seq<RoutedClusterSnapshot>,
    hints: RoutingHints,
    measures: Measures<E, U, L>,
    selection: Option<LoadBalancerCandidateSelection>,
    after: LoadBalancerTargetState,
) -> bool {
    &&& chosen_through(
        definition,
        before,
        request,
        candidates,
        hints,
        measures,
        match selection {
            Some(made) => Some(made.choice),
            None => None,
        },
        after,
    )
    &&& selection matches Some(made) ==> {
        &&& made.choice.candidate_index < candidates.len()
        &&& made.effective_algorithm == algorithm_of(definition)
        &&& crate::text::optional_text(made.requested_algorithm) == asked
        &&& made.comparator == match comparator_of(definition.essence().settings) {
            Some(comparator) => Some(
                comparator.traced(candidates[made.choice.candidate_index as int]),
            ),
            None => None,
        }
    }
}

} // verus!
