//! The configuration of load balancing: which algorithm a model uses, with which settings, and
//! which other algorithms a request may pick.

use super::algorithm::LoadBalancerAlgorithm;
use super::comparator::ClusterComparator;
use super::power_of_n::MAX_POWER_OF_N_SAMPLE_COUNT;
use super::score::Score;
use super::wait_and_widen::WaitAndWidenConfig;
use crate::text::{
    ascending_texts, copy_optional_text, decimal_digits, decimal_text, is_ascending, join, joined,
    same_text, texts,
};
use vstd::prelude::*;

verus! {

/// Why a configuration is refused.
#[derive(Clone, Debug, PartialEq, Eq)]
pub enum LoadBalancerConfigError {
    /// A sample count out of range.
    SampleCount { sample_count: usize },
    /// Fields that the algorithm does not have.
    UnsupportedFields { algorithm: LoadBalancerAlgorithm, fields: Vec<String> },
    /// An entry for one algorithm that configures another.
    RequestAlgorithmMismatch { key: LoadBalancerAlgorithm, configured: LoadBalancerAlgorithm },
    /// A comparator for an algorithm that compares by its own rule.
    UnsupportedComparator,
}

impl LoadBalancerConfigError {
    /// What to tell the operator.
    pub open spec fn text(&self) -> Seq<char> {
        match self {
            LoadBalancerConfigError::SampleCount { sample_count } =>
                "power-of-n sample_count must be between 1 and 64, got "@ + decimal_digits(
                *sample_count as nat,
            ),
            LoadBalancerConfigError::UnsupportedFields { algorithm, fields } => algorithm.label()
                + " config does not support field(s): "@ + joined(texts(fields@), ", "@),
            LoadBalancerConfigError::RequestAlgorithmMismatch { key, configured } =>
                "request_algorithms key "@ + key.label()
                + " does not match configured algorithm "@ + configured.label(),
            LoadBalancerConfigError::UnsupportedComparator =>
                "comparator is not supported for pulsar-wait-and-widen"@,
        }
    }

    /// What to tell the operator.
    pub fn message(&self) -> (message: String)
        ensures
            message@ == self.text(),
    {
        match self {
            LoadBalancerConfigError::SampleCount { sample_count } => {
                let mut message: String =
                    "power-of-n sample_count must be between 1 and 64, got ".to_owned();
                let count: String = decimal_text(*sample_count as u64);
                message.append(count.as_str());
                message
            },
            LoadBalancerConfigError::UnsupportedFields { algorithm, fields } => {
                let mut message: String = algorithm.as_str().to_owned();
                message.append(" config does not support field(s): ");
                let listed: String = join(fields, ", ");
                message.append(listed.as_str());
                message
            },
            LoadBalancerConfigError::RequestAlgorithmMismatch { key, configured } => {
                let mut message: String = "request_algorithms key ".to_owned();
                message.append(key.as_str());
                message.append(" does not match configured algorithm ");
                message.append(configured.as_str());
                message
            },
            LoadBalancerConfigError::UnsupportedComparator =>
                "comparator is not supported for pulsar-wait-and-widen".to_owned(),
        }
    }
}

/// A seed was given to an algorithm that has none.
#[derive(Clone, Copy, Debug, PartialEq, Eq, Structural)]
pub enum LoadBalancerSeedError {
    Unsupported { algorithm: LoadBalancerAlgorithm },
}

impl LoadBalancerSeedError {
    /// What to tell the operator.
    pub fn message(&self) -> (message: String)
        ensures
            message@ == "seed is not supported for "@ + self->algorithm.label(),
    {
        let LoadBalancerSeedError::Unsupported { algorithm } = *self;
        let mut message: String = "seed is not supported for ".to_owned();
        message.append(algorithm.as_str());
        message
    }
}

/// What requests must bring along.
#[derive(Clone, Copy, Debug, PartialEq, Eq, Structural)]
pub struct LoadBalancerRequestPolicy {
    pub require_cache_affinity_key: bool,
    pub require_input_tokens: bool,
    pub consider_kv_free_tokens: bool,
}

impl Default for LoadBalancerRequestPolicy {
    fn default() -> (policy: Self)
        ensures
            policy == no_policy(),
    {
        LoadBalancerRequestPolicy {
            require_cache_affinity_key: false,
            require_input_tokens: false,
            consider_kv_free_tokens: false,
        }
    }
}

/// Nothing is required.
pub open spec fn no_policy() -> LoadBalancerRequestPolicy {
    LoadBalancerRequestPolicy {
        require_cache_affinity_key: false,
        require_input_tokens: false,
        consider_kv_free_tokens: false,
    }
}

/// Settings of `wait-and-widen` as they are written; those left out have defaults.
#[derive(Clone, Debug)]
pub struct WaitAndWidenAlgorithmConfig {
    pub seed: Option<String>,
    pub comparator: Option<ClusterComparator>,
    pub cache_affinity_virtual_nodes: Option<usize>,
    pub cache_affinity_backend_selection_count: Option<usize>,
    pub max_queue_time_floor_ms: Option<u64>,
    pub max_queue_time_ceil_ms: Option<u64>,
    pub ttft_bucket_size_ms: Option<u64>,
    pub next_bucket_unlock_factor: Option<Score>,
    pub n: Option<usize>,
    pub max_queued: Option<u64>,
    pub ignore_queue_time: Option<bool>,
    pub ignore_input_processing_time: Option<bool>,
}

/// Settings of which nothing is written.
pub open spec fn unset_wait_and_widen() -> WaitAndWidenAlgorithmConfig {
    WaitAndWidenAlgorithmConfig {
        seed: None,
        comparator: None,
        cache_affinity_virtual_nodes: None,
        cache_affinity_backend_selection_count: None,
        max_queue_time_floor_ms: None,
        max_queue_time_ceil_ms: None,
        ttft_bucket_size_ms: None,
        next_bucket_unlock_factor: None,
        n: None,
        max_queued: None,
        ignore_queue_time: None,
        ignore_input_processing_time: None,
    }
}

impl Default for WaitAndWidenAlgorithmConfig {
    fn default() -> (config: Self)
        ensures
            config == unset_wait_and_widen(),
    {
        WaitAndWidenAlgorithmConfig {
            seed: None,
            comparator: None,
            cache_affinity_virtual_nodes: None,
            cache_affinity_backend_selection_count: None,
            max_queue_time_floor_ms: None,
            max_queue_time_ceil_ms: None,
            ttft_bucket_size_ms: None,
            next_bucket_unlock_factor: None,
            n: None,
            max_queued: None,
            ignore_queue_time: None,
            ignore_input_processing_time: None,
        }
    }
}

/// The number of clusters sampled where nothing else is written.
pub const DEFAULT_POWER_OF_N_SAMPLE_COUNT: usize = 2;

/// Settings of `power-of-n`.
#[derive(Clone, Copy, Debug, PartialEq, Eq, Structural)]
pub struct PowerOfNAlgorithmConfig {
    pub sample_count: usize,
    pub comparator: Option<ClusterComparator>,
}

/// Settings of `power-of-n` where nothing is written.
pub open spec fn unset_power_of_n() -> PowerOfNAlgorithmConfig {
    PowerOfNAlgorithmConfig { sample_count: DEFAULT_POWER_OF_N_SAMPLE_COUNT, comparator: None }
}

impl Default for PowerOfNAlgorithmConfig {
    fn default() -> (config: Self)
        ensures
            config == unset_power_of_n(),
    {
        PowerOfNAlgorithmConfig {
            sample_count: DEFAULT_POWER_OF_N_SAMPLE_COUNT,
            comparator: None,
        }
    }
}

/// Whether a sample count is in range.
pub open spec fn valid_sample_count(sample_count: usize) -> bool {
    1 <= sample_count <= MAX_POWER_OF_N_SAMPLE_COUNT
}

impl PowerOfNAlgorithmConfig {
    /// The sample count, which must be from 1 to `MAX_POWER_OF_N_SAMPLE_COUNT`.
    pub fn validated_sample_count(&self) -> (validated: Result<usize, LoadBalancerConfigError>)
        ensures
            validated == if valid_sample_count(self.sample_count) {
                Ok::<usize, LoadBalancerConfigError>(self.sample_count)
            } else {
                Err(LoadBalancerConfigError::SampleCount { sample_count: self.sample_count })
            },
    {
        if self.sample_count < 1 || MAX_POWER_OF_N_SAMPLE_COUNT < self.sample_count {
            return Err(LoadBalancerConfigError::SampleCount { sample_count: self.sample_count });
        }
        Ok(self.sample_count)
    }
}

/// An algorithm with its settings.
#[derive(Clone, Debug)]
pub enum LoadBalancerAlgorithmSettings {
    PowerOfN(PowerOfNAlgorithmConfig),
    WaitAndWiden(WaitAndWidenAlgorithmConfig),
    RoundRobin,
    Random,
    Pulsar(Option<String>),
    PulsarWaitAndWiden(WaitAndWidenAlgorithmConfig),
}

/// An algorithm with none of its settings written.
pub open spec fn unset_settings(algorithm: LoadBalancerAlgorithm) -> LoadBalancerAlgorithmSettings {
    match algorithm {
        LoadBalancerAlgorithm::PowerOfN => LoadBalancerAlgorithmSettings::PowerOfN(
            unset_power_of_n(),
        ),
        LoadBalancerAlgorithm::WaitAndWiden => LoadBalancerAlgorithmSettings::WaitAndWiden(
            unset_wait_and_widen(),
        ),
        LoadBalancerAlgorithm::RoundRobin => LoadBalancerAlgorithmSettings::RoundRobin,
        LoadBalancerAlgorithm::Random => LoadBalancerAlgorithmSettings::Random,
        LoadBalancerAlgorithm::Pulsar => LoadBalancerAlgorithmSettings::Pulsar(None),
        LoadBalancerAlgorithm::PulsarWaitAndWiden =>
            LoadBalancerAlgorithmSettings::PulsarWaitAndWiden(unset_wait_and_widen()),
    }
}

impl LoadBalancerAlgorithmSettings {
    /// The algorithm.
    pub open spec fn chosen_algorithm(&self) -> LoadBalancerAlgorithm {
        match self {
            LoadBalancerAlgorithmSettings::PowerOfN(_) => LoadBalancerAlgorithm::PowerOfN,
            LoadBalancerAlgorithmSettings::WaitAndWiden(_) => LoadBalancerAlgorithm::WaitAndWiden,
            LoadBalancerAlgorithmSettings::RoundRobin => LoadBalancerAlgorithm::RoundRobin,
            LoadBalancerAlgorithmSettings::Random => LoadBalancerAlgorithm::Random,
            LoadBalancerAlgorithmSettings::Pulsar(_) => LoadBalancerAlgorithm::Pulsar,
            LoadBalancerAlgorithmSettings::PulsarWaitAndWiden(_) =>
                LoadBalancerAlgorithm::PulsarWaitAndWiden,
        }
    }

    /// The algorithm.
    pub fn algorithm(&self) -> (algorithm: LoadBalancerAlgorithm)
        ensures
            algorithm == self.chosen_algorithm(),
    {
        match self {
            LoadBalancerAlgorithmSettings::PowerOfN(_) => LoadBalancerAlgorithm::PowerOfN,
            LoadBalancerAlgorithmSettings::WaitAndWiden(_) => LoadBalancerAlgorithm::WaitAndWiden,
            LoadBalancerAlgorithmSettings::RoundRobin => LoadBalancerAlgorithm::RoundRobin,
            LoadBalancerAlgorithmSettings::Random => LoadBalancerAlgorithm::Random,
            LoadBalancerAlgorithmSettings::Pulsar(_) => LoadBalancerAlgorithm::Pulsar,
            LoadBalancerAlgorithmSettings::PulsarWaitAndWiden(_) =>
                LoadBalancerAlgorithm::PulsarWaitAndWiden,
        }
    }

    /// An algorithm with none of its settings written.
    pub fn unset(algorithm: LoadBalancerAlgorithm) -> (settings: Self)
        ensures
            settings == unset_settings(algorithm),
            settings.chosen_algorithm() == algorithm,
    {
        match algorithm {
            LoadBalancerAlgorithm::PowerOfN => LoadBalancerAlgorithmSettings::PowerOfN(
                PowerOfNAlgorithmConfig::default(),
            ),
            LoadBalancerAlgorithm::WaitAndWiden => LoadBalancerAlgorithmSettings::WaitAndWiden(
                WaitAndWidenAlgorithmConfig::default(),
            ),
            LoadBalancerAlgorithm::RoundRobin => LoadBalancerAlgorithmSettings::RoundRobin,
            LoadBalancerAlgorithm::Random => LoadBalancerAlgorithmSettings::Random,
            LoadBalancerAlgorithm::Pulsar => LoadBalancerAlgorithmSettings::Pulsar(None),
            LoadBalancerAlgorithm::PulsarWaitAndWiden =>
                LoadBalancerAlgorithmSettings::PulsarWaitAndWiden(
                WaitAndWidenAlgorithmConfig::default(),
            ),
        }
    }
}

/// Whether no algorithm has two entries.
pub open spec fn one_entry_each(
    entries: Seq<(LoadBalancerAlgorithm, LoadBalancerModelConfig)>,
) -> bool {
    forall|i: int, j: int|
        #![trigger entries[i], entries[j]]
        0 <= i < j < entries.len() ==> entries[i].0 != entries[j].0
}

/// Whether entries are given ones with the entry of an algorithm: it takes the place of the one
/// that the algorithm had, or comes last where it had none.
pub open spec fn has_taken_entry(
    before: Seq<(LoadBalancerAlgorithm, LoadBalancerModelConfig)>,
    algorithm: LoadBalancerAlgorithm,
    model: LoadBalancerModelConfig,
    after: Seq<(LoadBalancerAlgorithm, LoadBalancerModelConfig)>,
) -> bool {
    ||| exists|i: int|
        0 <= i < before.len() && (#[trigger] before[i]).0 == algorithm && after == before.update(
            i,
            (algorithm, model),
        )
    ||| after == before.push((algorithm, model)) && forall|i: int|
        0 <= i < before.len() ==> (#[trigger] before[i]).0 != algorithm
}

/// Puts in the entry of an algorithm. The last one that is put in counts.
pub fn put_entry(
    entries: &mut Vec<(LoadBalancerAlgorithm, LoadBalancerModelConfig)>,
    algorithm: LoadBalancerAlgorithm,
    model: LoadBalancerModelConfig,
)
    requires
        one_entry_each(old(entries)@),
    ensures
        one_entry_each(final(entries)@),
        has_taken_entry(old(entries)@, algorithm, model, final(entries)@),
{
    let ghost before = entries@;
    let mut at: usize = 0;
    while at < entries.len()
        invariant
            at <= entries@.len(),
            entries@ == before,
            one_entry_each(before),
            before == old(entries)@,
            forall|i: int| 0 <= i < at ==> (#[trigger] before[i]).0 != algorithm,
        decreases entries@.len() - at,
    {
        if entries[at].0 == algorithm {
            entries.set(at, (algorithm, model));
            assert(before[at as int].0 == algorithm);
            assert(entries@ == before.update(at as int, (algorithm, model)));
            return;
        }
        at = at + 1;
    }
    entries.push((algorithm, model));
}

/// Whether no model has two entries.
pub open spec fn one_entry_each_model(models: Seq<(String, LoadBalancerModelConfig)>) -> bool {
    forall|i: int, j: int|
        #![trigger models[i], models[j]]
        0 <= i < j < models.len() ==> models[i].0@ != models[j].0@
}

/// Whether the entries of models are given ones with the entry of a model: it takes the place of
/// the one that the model had, or comes last where it had none.
pub open spec fn has_taken_model(
    before: Seq<(String, LoadBalancerModelConfig)>,
    model_id: String,
    model: LoadBalancerModelConfig,
    after: Seq<(String, LoadBalancerModelConfig)>,
) -> bool {
    ||| exists|i: int|
        0 <= i < before.len() && (#[trigger] before[i]).0@ == model_id@ && after == before.update(
            i,
            (model_id, model),
        )
    ||| after == before.push((model_id, model)) && forall|i: int|
        0 <= i < before.len() ==> (#[trigger] before[i]).0@ != model_id@
}

/// The configuration of an entry: the name of an algorithm, or an algorithm in detail.
#[derive(Debug)]
pub enum LoadBalancerModelConfig {
    Name(LoadBalancerAlgorithm),
    Detailed(Box<LoadBalancerAlgorithmConfig>),
}

/// An algorithm in detail, with the algorithms that requests may pick instead.
#[derive(Debug)]
pub struct LoadBalancerAlgorithmConfig {
    pub request_policy: LoadBalancerRequestPolicy,
    pub max_input_work_seconds: Option<Score>,
    pub request_algorithms: Vec<(LoadBalancerAlgorithm, LoadBalancerModelConfig)>,
    pub settings: LoadBalancerAlgorithmSettings,
}

/// What a load balancer is made from: a configuration without the algorithms that requests may
/// pick instead.
pub struct ConfigEssence {
    pub request_policy: LoadBalancerRequestPolicy,
    pub max_input_work_seconds: Option<Score>,
    pub settings: LoadBalancerAlgorithmSettings,
}

/// The essence of the configuration that names an algorithm and nothing else.
pub open spec fn unset_essence(algorithm: LoadBalancerAlgorithm) -> ConfigEssence {
    ConfigEssence {
        request_policy: no_policy(),
        max_input_work_seconds: None,
        settings: unset_settings(algorithm),
    }
}

/// The comparator that applies: the one written, else the default.
pub open spec fn written_comparator(comparator: Option<ClusterComparator>) -> ClusterComparator {
    match comparator {
        Some(comparator) => comparator,
        None => ClusterComparator::EstimatedTtft,
    }
}

/// The comparator that an algorithm compares by, if it has one.
pub open spec fn comparator_of(settings: LoadBalancerAlgorithmSettings) -> Option<
    ClusterComparator,
> {
    match settings {
        LoadBalancerAlgorithmSettings::PowerOfN(config) => Some(
            written_comparator(config.comparator),
        ),
        LoadBalancerAlgorithmSettings::WaitAndWiden(config) => Some(
            written_comparator(config.comparator),
        ),
        _ => None,
    }
}

fn comparator_or_default(comparator: Option<ClusterComparator>) -> (applied: ClusterComparator)
    ensures
        applied == written_comparator(comparator),
{
    match comparator {
        Some(comparator) => comparator,
        None => ClusterComparator::default(),
    }
}

/// The seed of an algorithm that has one, if it is written.
pub open spec fn seed_of(settings: LoadBalancerAlgorithmSettings) -> Option<Seq<char>> {
    match settings {
        LoadBalancerAlgorithmSettings::Pulsar(seed) => crate::text::optional_text(seed),
        LoadBalancerAlgorithmSettings::WaitAndWiden(config) => crate::text::optional_text(
            config.seed,
        ),
        LoadBalancerAlgorithmSettings::PulsarWaitAndWiden(config) => crate::text::optional_text(
            config.seed,
        ),
        _ => None,
    }
}

/// Whether an algorithm has a seed.
pub open spec fn has_seed(settings: LoadBalancerAlgorithmSettings) -> bool {
    settings is Pulsar || settings is WaitAndWiden || settings is PulsarWaitAndWiden
}

/// The settings with another seed.
pub open spec fn with_seed(
    settings: LoadBalancerAlgorithmSettings,
    seed: Option<String>,
) -> LoadBalancerAlgorithmSettings {
    match settings {
        LoadBalancerAlgorithmSettings::Pulsar(_) => LoadBalancerAlgorithmSettings::Pulsar(seed),
        LoadBalancerAlgorithmSettings::WaitAndWiden(config) =>
            LoadBalancerAlgorithmSettings::WaitAndWiden(
            WaitAndWidenAlgorithmConfig { seed, ..config },
        ),
        LoadBalancerAlgorithmSettings::PulsarWaitAndWiden(config) =>
            LoadBalancerAlgorithmSettings::PulsarWaitAndWiden(
            WaitAndWidenAlgorithmConfig { seed, ..config },
        ),
        other => other,
    }
}

impl LoadBalancerAlgorithmConfig {
    /// No algorithm has two entries, here or in the entries.
    pub open spec fn wf(&self) -> bool
        decreases self,
    {
        &&& one_entry_each(self.request_algorithms@)
        &&& forall|i: int|
            0 <= i < self.request_algorithms@.len()
                ==> (#[trigger] self.request_algorithms@[i]).1.wf()
    }

    /// What a load balancer is made from.
    pub open spec fn essence(&self) -> ConfigEssence {
        ConfigEssence {
            request_policy: self.request_policy,
            max_input_work_seconds: self.max_input_work_seconds,
            settings: self.settings,
        }
    }

    /// The configuration that names an algorithm and nothing else.
    pub fn new(algorithm: LoadBalancerAlgorithm) -> (config: Self)
        ensures
            config.essence() == unset_essence(algorithm),
            config.request_algorithms@.len() == 0,
            config.wf(),
    {
        LoadBalancerAlgorithmConfig {
            request_policy: LoadBalancerRequestPolicy::default(),
            max_input_work_seconds: None,
            request_algorithms: Vec::new(),
            settings: LoadBalancerAlgorithmSettings::unset(algorithm),
        }
    }

    /// The algorithm.
    pub fn algorithm(&self) -> (algorithm: LoadBalancerAlgorithm)
        ensures
            algorithm == self.settings.chosen_algorithm(),
    {
        self.settings.algorithm()
    }

    /// Whether requests must bring a cache affinity key.
    pub fn requires_cache_affinity_key(&self) -> (required: bool)
        ensures
            required == self.request_policy.require_cache_affinity_key,
    {
        self.request_policy.require_cache_affinity_key
    }

    /// Whether requests must say how many input tokens they have, by policy or because cache room
    /// is compared with them.
    pub fn requires_input_tokens(&self) -> (required: bool)
        ensures
            required == (self.request_policy.require_input_tokens
                || self.request_policy.consider_kv_free_tokens),
    {
        self.request_policy.require_input_tokens || self.considers_kv_free_tokens()
    }

    /// Whether clusters without enough cache room are passed over.
    pub fn considers_kv_free_tokens(&self) -> (considered: bool)
        ensures
            considered == self.request_policy.consider_kv_free_tokens,
    {
        self.request_policy.consider_kv_free_tokens
    }

    /// The comparator that the algorithm compares by, if it has one.
    pub fn comparator(&self) -> (comparator: Option<ClusterComparator>)
        ensures
            comparator == comparator_of(self.settings),
    {
        match &self.settings {
            LoadBalancerAlgorithmSettings::PowerOfN(config) => Some(
                comparator_or_default(config.comparator),
            ),
            LoadBalancerAlgorithmSettings::WaitAndWiden(config) => Some(
                comparator_or_default(config.comparator),
            ),
            _ => None,
        }
    }

    /// The policy, to be changed.
    pub fn request_policy_mut(&mut self) -> (policy: &mut LoadBalancerRequestPolicy)
        ensures
            *policy == old(self).request_policy,
            *final(self) == (LoadBalancerAlgorithmConfig {
                request_policy: *final(policy),
                ..*old(self)
            }),
    {
        &mut self.request_policy
    }

    /// The seed, if the algorithm has one and it is written.
    pub fn seed(&self) -> (seed: Option<&str>)
        ensures
            match (seed, seed_of(self.settings)) {
                (Some(written), Some(expected)) => written@ == expected,
                (None, None) => true,
                _ => false,
            },
    {
        let seed: &Option<String> = match &self.settings {
            LoadBalancerAlgorithmSettings::Pulsar(seed) => seed,
            LoadBalancerAlgorithmSettings::WaitAndWiden(config) => &config.seed,
            LoadBalancerAlgorithmSettings::PulsarWaitAndWiden(config) => &config.seed,
            _ => return None,
        };
        match seed {
            Some(seed) => Some(seed.as_str()),
            None => None,
        }
    }

    /// Sets the seed of an algorithm that has one; others are refused and stay as they are.
    pub fn set_seed(&mut self, seed: Option<String>) -> (set: Result<(), LoadBalancerSeedError>)
        ensures
            set == if has_seed(old(self).settings) {
                Ok::<(), LoadBalancerSeedError>(())
            } else {
                Err(
                    LoadBalancerSeedError::Unsupported {
                        algorithm: old(self).settings.chosen_algorithm(),
                    },
                )
            },
            *final(self) == (LoadBalancerAlgorithmConfig {
                settings: with_seed(old(self).settings, seed),
                ..*old(self)
            }),
    {
        let algorithm: LoadBalancerAlgorithm = self.algorithm();
        match &mut self.settings {
            LoadBalancerAlgorithmSettings::Pulsar(current) => {
                *current = seed;
                Ok(())
            },
            LoadBalancerAlgorithmSettings::WaitAndWiden(config) => {
                config.seed = seed;
                Ok(())
            },
            LoadBalancerAlgorithmSettings::PulsarWaitAndWiden(config) => {
                config.seed = seed;
                Ok(())
            },
            _ => Err(LoadBalancerSeedError::Unsupported { algorithm }),
        }
    }

    /// The settings of `wait-and-widen`, where the algorithm has them.
    pub fn wait_and_widen_settings(&self) -> (settings: Option<&WaitAndWidenAlgorithmConfig>)
        ensures
            match (settings, self.settings) {
                (Some(found), LoadBalancerAlgorithmSettings::WaitAndWiden(config)) => *found
                    == config,
                (Some(found), LoadBalancerAlgorithmSettings::PulsarWaitAndWiden(config)) => *found
                    == config,
                (Some(_), _) => false,
                (None, _) => !(self.settings is WaitAndWiden) && !(self.settings
                    is PulsarWaitAndWiden),
            },
    {
        match &self.settings {
            LoadBalancerAlgorithmSettings::WaitAndWiden(config) => Some(config),
            LoadBalancerAlgorithmSettings::PulsarWaitAndWiden(config) => Some(config),
            _ => None,
        }
    }

    /// The settings of `power-of-n`, where the algorithm has them.
    pub fn power_of_n_settings(&self) -> (settings: Option<&PowerOfNAlgorithmConfig>)
        ensures
            match (settings, self.settings) {
                (Some(found), LoadBalancerAlgorithmSettings::PowerOfN(config)) => *found == config,
                (Some(_), _) => false,
                (None, _) => !(self.settings is PowerOfN),
            },
    {
        match &self.settings {
            LoadBalancerAlgorithmSettings::PowerOfN(config) => Some(config),
            _ => None,
        }
    }

    /// The settings of `wait-and-widen`, to be changed, where the algorithm has them.
    pub fn wait_and_widen_settings_mut(&mut self) -> (settings: Option<
        &mut WaitAndWidenAlgorithmConfig,
    >)
        ensures
            settings is Some <==> old(self).settings is WaitAndWiden || old(self).settings
                is PulsarWaitAndWiden,
            settings is None ==> *final(self) == *old(self),
            settings matches Some(found) ==> match old(self).settings {
                LoadBalancerAlgorithmSettings::WaitAndWiden(config) => *found == config
                    && *final(self) == (LoadBalancerAlgorithmConfig {
                    settings: LoadBalancerAlgorithmSettings::WaitAndWiden(*final(found)),
                    ..*old(self)
                }),
                LoadBalancerAlgorithmSettings::PulsarWaitAndWiden(config) => *found == config
                    && *final(self) == (LoadBalancerAlgorithmConfig {
                    settings: LoadBalancerAlgorithmSettings::PulsarWaitAndWiden(*final(found)),
                    ..*old(self)
                }),
                _ => false,
            },
    {
        match &mut self.settings {
            LoadBalancerAlgorithmSettings::WaitAndWiden(config) => Some(config),
            LoadBalancerAlgorithmSettings::PulsarWaitAndWiden(config) => Some(config),
            _ => None,
        }
    }

    /// The settings of `power-of-n`, to be changed, where the algorithm has them.
    pub fn power_of_n_settings_mut(&mut self) -> (settings: Option<&mut PowerOfNAlgorithmConfig>)
        ensures
            settings is Some <==> old(self).settings is PowerOfN,
            settings is None ==> *final(self) == *old(self),
            settings matches Some(found) ==> LoadBalancerAlgorithmSettings::PowerOfN(*found)
                == old(self).settings && *final(self) == (LoadBalancerAlgorithmConfig {
                settings: LoadBalancerAlgorithmSettings::PowerOfN(*final(found)),
                ..*old(self)
            }),
    {
        match &mut self.settings {
            LoadBalancerAlgorithmSettings::PowerOfN(config) => Some(config),
            _ => None,
        }
    }
}

/// The fields that every algorithm has, as they were read, and those that none of the algorithm's
/// fields matched.
pub struct RawCommonAlgorithmConfig {
    pub require_cache_affinity_key: Option<bool>,
    pub require_input_tokens: Option<bool>,
    pub max_input_work_seconds: Option<Score>,
    pub request_algorithms: Vec<(LoadBalancerAlgorithm, LoadBalancerModelConfig)>,
    pub unsupported_fields: Vec<String>,
}

fn or_false(value: Option<bool>) -> (result: bool)
    ensures
        result == (value == Some(true)),
{
    match value {
        Some(value) => value,
        None => false,
    }
}

/// Whether `listed` are the given fields in ascending order, none of them twice.
pub open spec fn lists_fields(listed: Seq<String>, fields: Seq<String>) -> bool {
    &&& is_ascending(texts(listed))
    &&& forall|field: Seq<char>| #[trigger]
        texts(listed).contains(field) <==> texts(fields).contains(field)
}

impl RawCommonAlgorithmConfig {
    /// No algorithm has two entries, here or in the entries.
    pub open spec fn wf(&self) -> bool {
        &&& one_entry_each(self.request_algorithms@)
        &&& forall|i: int|
            0 <= i < self.request_algorithms@.len()
                ==> (#[trigger] self.request_algorithms@[i]).1.wf()
    }

    /// The configuration that fields and settings make up. Fields that the algorithm does not have
    /// are refused, in ascending order.
    pub fn into_config(
        self,
        settings: LoadBalancerAlgorithmSettings,
        consider_kv_free_tokens: Option<bool>,
    ) -> (config: Result<LoadBalancerAlgorithmConfig, LoadBalancerConfigError>)
        ensures
            match config {
                Ok(made) => {
                    &&& self.unsupported_fields@.len() == 0
                    &&& self.wf() ==> made.wf()
                    &&& made == (LoadBalancerAlgorithmConfig {
                        request_policy: LoadBalancerRequestPolicy {
                            require_cache_affinity_key: self.require_cache_affinity_key == Some(
                                true,
                            ),
                            require_input_tokens: self.require_input_tokens == Some(true),
                            consider_kv_free_tokens: consider_kv_free_tokens == Some(true),
                        },
                        max_input_work_seconds: self.max_input_work_seconds,
                        request_algorithms: self.request_algorithms,
                        settings,
                    })
                },
                Err(LoadBalancerConfigError::UnsupportedFields { algorithm, fields }) => {
                    &&& self.unsupported_fields@.len() > 0
                    &&& algorithm == settings.chosen_algorithm()
                    &&& lists_fields(fields@, self.unsupported_fields@)
                },
                Err(_) => false,
            },
    {
        let algorithm: LoadBalancerAlgorithm = settings.algorithm();
        if self.unsupported_fields.len() > 0 {
            return Err(
                LoadBalancerConfigError::UnsupportedFields {
                    algorithm,
                    fields: ascending_texts(&self.unsupported_fields),
                },
            );
        }
        Ok(
            LoadBalancerAlgorithmConfig {
                request_policy: LoadBalancerRequestPolicy {
                    require_cache_affinity_key: or_false(self.require_cache_affinity_key),
                    require_input_tokens: or_false(self.require_input_tokens),
                    consider_kv_free_tokens: or_false(consider_kv_free_tokens),
                },
                max_input_work_seconds: self.max_input_work_seconds,
                request_algorithms: self.request_algorithms,
                settings,
            },
        )
    }
}

/// A detailed configuration as it was read.
pub enum RawLoadBalancerAlgorithmConfig {
    PowerOfN { settings: PowerOfNAlgorithmConfig, common: RawCommonAlgorithmConfig },
    WaitAndWiden { settings: WaitAndWidenAlgorithmConfig, common: RawCommonAlgorithmConfig },
    RoundRobin(RawCommonAlgorithmConfig),
    Random(RawCommonAlgorithmConfig),
    Pulsar {
        seed: Option<String>,
        consider_kv_free_tokens: Option<bool>,
        common: RawCommonAlgorithmConfig,
    },
    PulsarWaitAndWiden {
        settings: WaitAndWidenAlgorithmConfig,
        consider_kv_free_tokens: Option<bool>,
        common: RawCommonAlgorithmConfig,
    },
}

/// The common fields, the settings, and the wish about cache room, of a configuration as it was
/// read.
pub open spec fn normalized_config(raw: RawLoadBalancerAlgorithmConfig) -> (
    RawCommonAlgorithmConfig,
    LoadBalancerAlgorithmSettings,
    Option<bool>,
) {
    match raw {
        RawLoadBalancerAlgorithmConfig::PowerOfN { settings, common } => (
            common,
            LoadBalancerAlgorithmSettings::PowerOfN(settings),
            None,
        ),
        RawLoadBalancerAlgorithmConfig::WaitAndWiden { settings, common } => (
            common,
            LoadBalancerAlgorithmSettings::WaitAndWiden(settings),
            None,
        ),
        RawLoadBalancerAlgorithmConfig::RoundRobin(common) => (
            common,
            LoadBalancerAlgorithmSettings::RoundRobin,
            None,
        ),
        RawLoadBalancerAlgorithmConfig::Random(common) => (
            common,
            LoadBalancerAlgorithmSettings::Random,
            None,
        ),
        RawLoadBalancerAlgorithmConfig::Pulsar { seed, consider_kv_free_tokens, common } => (
            common,
            LoadBalancerAlgorithmSettings::Pulsar(seed),
            consider_kv_free_tokens,
        ),
        RawLoadBalancerAlgorithmConfig::PulsarWaitAndWiden {
            settings,
            consider_kv_free_tokens,
            common,
        } => (
            common,
            LoadBalancerAlgorithmSettings::PulsarWaitAndWiden(settings),
            consider_kv_free_tokens,
        ),
    }
}

impl RawLoadBalancerAlgorithmConfig {
    /// The common fields, the settings, and the wish about cache room.
    pub fn normalized(self) -> (parts: (
        RawCommonAlgorithmConfig,
        LoadBalancerAlgorithmSettings,
        Option<bool>,
    ))
        ensures
            parts == normalized_config(self),
    {
        match self {
            RawLoadBalancerAlgorithmConfig::PowerOfN { settings, common } => (
                common,
                LoadBalancerAlgorithmSettings::PowerOfN(settings),
                None,
            ),
            RawLoadBalancerAlgorithmConfig::WaitAndWiden { settings, common } => (
                common,
                LoadBalancerAlgorithmSettings::WaitAndWiden(settings),
                None,
            ),
            RawLoadBalancerAlgorithmConfig::RoundRobin(common) => (
                common,
                LoadBalancerAlgorithmSettings::RoundRobin,
                None,
            ),
            RawLoadBalancerAlgorithmConfig::Random(common) => (
                common,
                LoadBalancerAlgorithmSettings::Random,
                None,
            ),
            RawLoadBalancerAlgorithmConfig::Pulsar { seed, consider_kv_free_tokens, common } => (
                common,
                LoadBalancerAlgorithmSettings::Pulsar(seed),
                consider_kv_free_tokens,
            ),
            RawLoadBalancerAlgorithmConfig::PulsarWaitAndWiden {
                settings,
                consider_kv_free_tokens,
                common,
            } => (
                common,
                LoadBalancerAlgorithmSettings::PulsarWaitAndWiden(settings),
                consider_kv_free_tokens,
            ),
        }
    }

    /// The configuration that was read, unless its sample count is out of range or it has fields
    /// that the algorithm does not have.
    pub fn into_config(self) -> (config: Result<
        LoadBalancerAlgorithmConfig,
        LoadBalancerConfigError,
    >)
        ensures
            ({
                let (common, settings, consider_kv_free_tokens) = normalized_config(self);
                match config {
                    Ok(made) => {
                        &&& settings matches LoadBalancerAlgorithmSettings::PowerOfN(written)
                            ==> valid_sample_count(written.sample_count)
                        &&& common.unsupported_fields@.len() == 0
                        &&& common.wf() ==> made.wf()
                        &&& made.settings == settings
                        &&& made.request_algorithms == common.request_algorithms
                        &&& made.max_input_work_seconds == common.max_input_work_seconds
                        &&& made.request_policy == (LoadBalancerRequestPolicy {
                            require_cache_affinity_key: common.require_cache_affinity_key == Some(
                                true,
                            ),
                            require_input_tokens: common.require_input_tokens == Some(true),
                            consider_kv_free_tokens: consider_kv_free_tokens == Some(true),
                        })
                    },
                    Err(LoadBalancerConfigError::SampleCount { sample_count }) => settings
                        matches LoadBalancerAlgorithmSettings::PowerOfN(written)
                        && written.sample_count == sample_count && !valid_sample_count(
                        sample_count,
                    ),
                    Err(LoadBalancerConfigError::UnsupportedFields { algorithm, fields }) => {
                        &&& settings matches LoadBalancerAlgorithmSettings::PowerOfN(written)
                            ==> valid_sample_count(written.sample_count)
                        &&& common.unsupported_fields@.len() > 0
                        &&& algorithm == settings.chosen_algorithm()
                        &&& lists_fields(fields@, common.unsupported_fields@)
                    },
                    Err(_) => false,
                }
            }),
    {
        let (common, settings, consider_kv_free_tokens) = self.normalized();
        if let LoadBalancerAlgorithmSettings::PowerOfN(config) = &settings {
            if let Err(error) = config.validated_sample_count() {
                return Err(error);
            }
        }
        common.into_config(settings, consider_kv_free_tokens)
    }
}

/// The essence of the configuration of an entry.
pub open spec fn entry_essence(entry: LoadBalancerModelConfig) -> ConfigEssence {
    match entry {
        LoadBalancerModelConfig::Name(algorithm) => unset_essence(algorithm),
        LoadBalancerModelConfig::Detailed(config) => config.essence(),
    }
}

/// The algorithms that an entry lets requests pick.
pub open spec fn entry_request_algorithms(entry: LoadBalancerModelConfig) -> Seq<
    (LoadBalancerAlgorithm, LoadBalancerModelConfig),
> {
    match entry {
        LoadBalancerModelConfig::Name(algorithm) => Seq::empty(),
        LoadBalancerModelConfig::Detailed(config) => config.request_algorithms@,
    }
}

impl LoadBalancerModelConfig {
    /// No algorithm has two entries within the entry.
    pub open spec fn wf(&self) -> bool
        decreases self,
    {
        match self {
            LoadBalancerModelConfig::Name(_) => true,
            LoadBalancerModelConfig::Detailed(config) => config.wf(),
        }
    }

    /// The configuration of an entry in detail.
    pub fn into_algorithm_config(self) -> (config: LoadBalancerAlgorithmConfig)
        ensures
            self.wf() ==> config.wf(),
            config.essence() == entry_essence(self),
            config.request_algorithms@ == entry_request_algorithms(self),
    {
        match self {
            LoadBalancerModelConfig::Name(algorithm) => LoadBalancerAlgorithmConfig::new(
                algorithm,
            ),
            LoadBalancerModelConfig::Detailed(config) => *config,
        }
    }
}

/// The configuration of load balancing: the algorithm of models without an entry, the algorithms
/// that requests may pick for every model, and the entries of models.
#[derive(Debug)]
pub struct LoadBalancerConfig {
    pub default: LoadBalancerAlgorithm,
    pub request_algorithms: Vec<(LoadBalancerAlgorithm, LoadBalancerModelConfig)>,
    pub models: Vec<(String, LoadBalancerModelConfig)>,
}

impl LoadBalancerConfig {
    /// No algorithm and no model has two entries.
    pub open spec fn wf(&self) -> bool {
        &&& one_entry_each(self.request_algorithms@)
        &&& forall|i: int|
            0 <= i < self.request_algorithms@.len()
                ==> (#[trigger] self.request_algorithms@[i]).1.wf()
        &&& one_entry_each_model(self.models@)
        &&& forall|i: int| 0 <= i < self.models@.len() ==> (#[trigger] self.models@[i]).1.wf()
    }

    /// `power-of-n` for every model, and nothing for requests to pick.
    pub fn new() -> (config: Self)
        ensures
            config.default == LoadBalancerAlgorithm::PowerOfN,
            config.request_algorithms@.len() == 0,
            config.models@.len() == 0,
            config.wf(),
    {
        LoadBalancerConfig {
            default: LoadBalancerAlgorithm::default(),
            request_algorithms: Vec::new(),
            models: Vec::new(),
        }
    }

    /// Puts in the entry of a model. The last one that is put in counts.
    pub fn put_model(&mut self, model_id: String, model: LoadBalancerModelConfig)
        requires
            old(self).wf(),
            model.wf(),
        ensures
            final(self).wf(),
            final(self).default == old(self).default,
            final(self).request_algorithms == old(self).request_algorithms,
            has_taken_model(old(self).models@, model_id, model, final(self).models@),
    {
        let ghost before = self.models@;
        let mut at: usize = 0;
        while at < self.models.len()
            invariant
                at <= self.models@.len(),
                *self == *old(self),
                before == old(self).models@,
                old(self).wf(),
                model.wf(),
                forall|i: int| 0 <= i < at ==> (#[trigger] before[i]).0@ != model_id@,
            decreases self.models@.len() - at,
        {
            if same_text(self.models[at].0.as_str(), model_id.as_str()) {
                self.models.set(at, (model_id, model));
                assert(before[at as int].0@ == model_id@);
                assert(self.models@ == before.update(at as int, (model_id, model)));
                return;
            }
            at = at + 1;
        }
        self.models.push((model_id, model));
    }

    /// What holds where nothing is configured: `power-of-n` for every model, and every algorithm
    /// for requests to pick.
    pub fn permissive_default() -> (config: Self)
        ensures
            config.default == LoadBalancerAlgorithm::PowerOfN,
            config.wf(),
            config.models@.len() == 0,
            config.request_algorithms@ == Seq::new(
                6,
                |i: int|
                    (
                        LoadBalancerAlgorithm::all_algorithms()[i],
                        LoadBalancerModelConfig::Name(LoadBalancerAlgorithm::all_algorithms()[i]),
                    ),
            ),
    {
        let all: Vec<LoadBalancerAlgorithm> = LoadBalancerAlgorithm::all();
        let mut request_algorithms: Vec<(LoadBalancerAlgorithm, LoadBalancerModelConfig)> =
            Vec::new();
        let mut at: usize = 0;
        while at < all.len()
            invariant
                at <= all@.len(),
                all@ == LoadBalancerAlgorithm::all_algorithms(),
                request_algorithms@.len() == at,
                forall|i: int|
                    0 <= i < at ==> #[trigger] request_algorithms@[i] == (
                        all@[i],
                        LoadBalancerModelConfig::Name(all@[i]),
                    ),
            decreases all@.len() - at,
        {
            request_algorithms.push((all[at], LoadBalancerModelConfig::Name(all[at])));
            at = at + 1;
        }
        LoadBalancerConfig {
            default: LoadBalancerAlgorithm::default(),
            request_algorithms,
            models: Vec::new(),
        }
    }
}

/// The bits of the number one quarter.
pub const ONE_QUARTER_BITS: u64 = 0x3fd0_0000_0000_0000;

fn or_number(value: Option<u64>, default: u64) -> (result: u64)
    ensures
        result == match value {
            Some(value) => value,
            None => default,
        },
{
    match value {
        Some(value) => value,
        None => default,
    }
}

fn or_count(value: Option<usize>, default: usize) -> (result: usize)
    ensures
        result == match value {
            Some(value) => value,
            None => default,
        },
{
    match value {
        Some(value) => value,
        None => default,
    }
}

/// The settings of `wait-and-widen`, where an algorithm has them.
pub open spec fn widening_settings(settings: LoadBalancerAlgorithmSettings) -> Option<
    WaitAndWidenAlgorithmConfig,
> {
    match settings {
        LoadBalancerAlgorithmSettings::WaitAndWiden(config) => Some(config),
        LoadBalancerAlgorithmSettings::PulsarWaitAndWiden(config) => Some(config),
        _ => None,
    }
}

/// How `wait-and-widen` chooses with given settings and the comparator of the algorithm, if it has
/// one: what is left out has a default, no virtual nodes count as one, a selection of nothing as
/// none, and a sample of nothing as one. The queue bounds hold only together.
pub open spec fn resolves_to(
    comparator: Option<ClusterComparator>,
    settings: WaitAndWidenAlgorithmConfig,
    config: WaitAndWidenConfig,
) -> bool {
    &&& config.comparator == comparator
    &&& crate::text::optional_text(config.seed) == crate::text::optional_text(settings.seed)
    &&& config.cache_affinity_virtual_nodes == match settings.cache_affinity_virtual_nodes {
        None => 150usize,
        Some(0) => 1,
        Some(nodes) => nodes,
    }
    &&& config.cache_affinity_backend_selection_count
        == match settings.cache_affinity_backend_selection_count {
        Some(0) => None,
        other => other,
    }
    &&& config.queue_slo == match (
        settings.max_queue_time_floor_ms,
        settings.max_queue_time_ceil_ms,
    ) {
        (Some(floor), Some(ceil)) => Some((floor, ceil)),
        _ => None,
    }
    &&& config.ttft_bucket_size_ms == match settings.ttft_bucket_size_ms {
        None => 20u64,
        Some(size) => size,
    }
    &&& config.next_bucket_unlock_factor == match settings.next_bucket_unlock_factor {
        None => Score { bits: ONE_QUARTER_BITS },
        Some(factor) => factor,
    }
    &&& config.sample_count == match settings.n {
        None => 2usize,
        Some(0) => 1,
        Some(n) => n,
    }
    &&& config.max_queued == match settings.max_queued {
        None => 0u64,
        Some(max_queued) => max_queued,
    }
    &&& config.ignore_queue_time == (settings.ignore_queue_time == Some(true))
    &&& config.ignore_input_processing_time == (settings.ignore_input_processing_time == Some(true))
}

impl WaitAndWidenConfig {
    /// How `wait-and-widen` chooses with the settings of an algorithm that has them.
    pub fn from_algorithm_config(algorithm_config: &LoadBalancerAlgorithmConfig) -> (config: Self)
        requires
            widening_settings(algorithm_config.settings) is Some,
        ensures
            resolves_to(
                comparator_of(algorithm_config.settings),
                widening_settings(algorithm_config.settings)->0,
                config,
            ),
            config.wf(),
    {
        let settings: &WaitAndWidenAlgorithmConfig =
            algorithm_config.wait_and_widen_settings().unwrap();
        let virtual_nodes: usize = or_count(settings.cache_affinity_virtual_nodes, 150);
        let sample_count: usize = or_count(settings.n, 2);
        let selection: Option<usize> = match settings.cache_affinity_backend_selection_count {
            Some(count) => if count > 0 {
                Some(count)
            } else {
                None
            },
            None => None,
        };
        WaitAndWidenConfig {
            comparator: algorithm_config.comparator(),
            seed: copy_optional_text(&settings.seed),
            cache_affinity_virtual_nodes: if virtual_nodes == 0 {
                1
            } else {
                virtual_nodes
            },
            cache_affinity_backend_selection_count: selection,
            queue_slo: match (settings.max_queue_time_floor_ms, settings.max_queue_time_ceil_ms) {
                (Some(floor), Some(ceil)) => Some((floor, ceil)),
                _ => None,
            },
            ttft_bucket_size_ms: or_number(settings.ttft_bucket_size_ms, 20),
            next_bucket_unlock_factor: match settings.next_bucket_unlock_factor {
                Some(factor) => factor,
                None => Score { bits: ONE_QUARTER_BITS },
            },
            sample_count: if sample_count == 0 {
                1
            } else {
                sample_count
            },
            max_queued: or_number(settings.max_queued, 0),
            ignore_queue_time: or_false(settings.ignore_queue_time),
            ignore_input_processing_time: or_false(settings.ignore_input_processing_time),
        }
    }
}

} // verus!
