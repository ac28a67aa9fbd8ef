//! What holds of configurations: what is written is kept, and what is not written has a default.

use super::algorithm::LoadBalancerAlgorithm;
use super::comparator::ClusterComparator;
use super::config::{
    comparator_of, has_seed, has_taken_entry, has_taken_model, one_entry_each,
    one_entry_each_model, seed_of, with_seed, LoadBalancerAlgorithmConfig,
    LoadBalancerAlgorithmSettings, LoadBalancerConfig, LoadBalancerConfigError,
    LoadBalancerModelConfig, LoadBalancerRequestPolicy, PowerOfNAlgorithmConfig, RawCommonAlgorithmConfig, RawLoadBalancerAlgorithmConfig,
    WaitAndWidenAlgorithmConfig,
};
use super::score::Score;
use super::target_state::check_settings;
use super::wait_and_widen::WaitAndWidenConfig;
use crate::text::{decimal_digits, joined, optional_text, texts};
use vstd::prelude::*;

verus! {

/// Settings of wait-and-widen that are written apply as they are written. Those that are not have
/// defaults: 150 virtual nodes, buckets of 20 milliseconds, a quarter of a gap to open one, samples
/// of two, none queued beyond what runs, and estimates that leave nothing out. No sample and no
/// virtual node are taken as one, no selected backend as any number. The queue is bounded only
/// where both bounds are written.
pub proof fn written_settings_apply_and_others_have_defaults(
    written: LoadBalancerAlgorithmConfig,
    settings: WaitAndWidenAlgorithmConfig,
    config: WaitAndWidenConfig,
)
    requires
        written.settings == LoadBalancerAlgorithmSettings::WaitAndWiden(settings)
            || written.settings == LoadBalancerAlgorithmSettings::PulsarWaitAndWiden(settings),
        call_ensures(WaitAndWidenConfig::from_algorithm_config, (&written,), config),
    ensures
        settings.seed is None ==> config.seed is None,
        settings.seed is Some ==> config.seed is Some && config.seed->0@ == settings.seed->0@,
        written.settings is PulsarWaitAndWiden ==> config.comparator is None,
        written.settings is WaitAndWiden && settings.comparator is None ==> config.comparator
            == Some(ClusterComparator::EstimatedTtft),
        written.settings is WaitAndWiden && settings.comparator is Some ==> config.comparator
            == settings.comparator,
        settings.cache_affinity_virtual_nodes is None ==> config.cache_affinity_virtual_nodes
            == 150,
        settings.cache_affinity_virtual_nodes matches Some(nodes)
            ==> config.cache_affinity_virtual_nodes == if nodes > 1 {
            nodes
        } else {
            1
        },
        settings.cache_affinity_backend_selection_count is None
            ==> config.cache_affinity_backend_selection_count is None,
        settings.cache_affinity_backend_selection_count matches Some(count)
            ==> config.cache_affinity_backend_selection_count == if count > 0 {
            Some(count)
        } else {
            None
        },
        config.queue_slo is Some <==> settings.max_queue_time_floor_ms is Some
            && settings.max_queue_time_ceil_ms is Some,
        config.queue_slo matches Some(bounds) ==> bounds.0
            == settings.max_queue_time_floor_ms->0 && bounds.1
            == settings.max_queue_time_ceil_ms->0,
        settings.ttft_bucket_size_ms is None ==> config.ttft_bucket_size_ms == 20,
        settings.ttft_bucket_size_ms matches Some(size) ==> config.ttft_bucket_size_ms == size,
        settings.next_bucket_unlock_factor is None ==> config.next_bucket_unlock_factor == (
        Score { bits: 0x3fd0_0000_0000_0000 }),
        settings.next_bucket_unlock_factor matches Some(factor) ==> config.next_bucket_unlock_factor
            == factor,
        settings.n is None ==> config.sample_count == 2,
        settings.n matches Some(n) ==> config.sample_count == if n > 1 {
            n
        } else {
            1
        },
        settings.max_queued is None ==> config.max_queued == 0,
        settings.max_queued matches Some(most) ==> config.max_queued == most,
        config.ignore_queue_time <==> settings.ignore_queue_time == Some(true),
        config.ignore_input_processing_time <==> settings.ignore_input_processing_time == Some(
            true,
        ),
{
}

/// A sample is of one to 64 clusters. Other settings are refused only for a signal on
/// pulsar-wait-and-widen, which compares by none of the caller's choosing.
pub proof fn settings_are_refused_for_two_reasons(
    settings: LoadBalancerAlgorithmSettings,
    checked: Result<(), LoadBalancerConfigError>,
)
    requires
        call_ensures(check_settings, (&settings,), checked),
    ensures
        settings matches LoadBalancerAlgorithmSettings::PowerOfN(config) ==> {
            &&& checked is Ok <==> 0 < config.sample_count < 65
            &&& checked is Err ==> checked->Err_0 == (LoadBalancerConfigError::SampleCount {
                sample_count: config.sample_count,
            })
        },
        settings matches LoadBalancerAlgorithmSettings::PulsarWaitAndWiden(config) ==> {
            &&& checked is Ok <==> config.comparator is None
            &&& checked is Err ==> checked->Err_0 == LoadBalancerConfigError::UnsupportedComparator
        },
        !(settings is PowerOfN) && !(settings is PulsarWaitAndWiden) ==> checked is Ok,
{
}

/// A seed that is set is the seed that is read, and nothing else changes. The algorithms that rank
/// clusters by a hash take a seed; the others keep their settings.
pub proof fn a_seed_that_is_set_is_read(
    settings: LoadBalancerAlgorithmSettings,
    seed: Option<String>,
)
    ensures
        has_seed(settings) <==> !(settings is PowerOfN || settings is RoundRobin || settings
            is Random),
        has_seed(settings) ==> seed_of(with_seed(settings, seed)) == optional_text(seed),
        !has_seed(settings) ==> with_seed(settings, seed) == settings && seed_of(settings) is None,
        with_seed(settings, seed).chosen_algorithm() == settings.chosen_algorithm(),
        comparator_of(with_seed(settings, seed)) == comparator_of(settings),
        settings matches LoadBalancerAlgorithmSettings::WaitAndWiden(config) ==> with_seed(
            with_seed(settings, seed),
            config.seed,
        ) == settings,
        settings matches LoadBalancerAlgorithmSettings::PulsarWaitAndWiden(config) ==> with_seed(
            with_seed(settings, seed),
            config.seed,
        ) == settings,
{
}

/// Of the algorithms that compare clusters by a signal the signal is given, the estimate of the time
/// to first token where none is written; of the others none is.
pub proof fn the_written_signal_is_given(
    config: LoadBalancerAlgorithmConfig,
    comparator: Option<ClusterComparator>,
)
    requires
        call_ensures(LoadBalancerAlgorithmConfig::comparator, (&config,), comparator),
    ensures
        comparator is Some <==> config.settings is PowerOfN || config.settings is WaitAndWiden,
        config.settings matches LoadBalancerAlgorithmSettings::PowerOfN(settings) ==> comparator
            == match settings.comparator {
            Some(written) => Some(written),
            None => Some(ClusterComparator::EstimatedTtft),
        },
        config.settings matches LoadBalancerAlgorithmSettings::WaitAndWiden(settings) ==> comparator
            == match settings.comparator {
            Some(written) => Some(written),
            None => Some(ClusterComparator::EstimatedTtft),
        },
{
}

/// A configuration that only names its algorithm asks nothing of requests, bounds no work, lets
/// requests pick no other algorithm, and has no setting written: samples are of two clusters.
pub proof fn named_algorithms_have_nothing_written(
    algorithm: LoadBalancerAlgorithm,
    config: LoadBalancerAlgorithmConfig,
    from_name: LoadBalancerAlgorithmConfig,
    affinity: bool,
    tokens: bool,
    cache: bool,
)
    requires
        call_ensures(LoadBalancerAlgorithmConfig::new, (algorithm,), config),
        call_ensures(
            LoadBalancerModelConfig::into_algorithm_config,
            (LoadBalancerModelConfig::Name(algorithm),),
            from_name,
        ),
        call_ensures(LoadBalancerAlgorithmConfig::requires_cache_affinity_key, (&config,), affinity),
        call_ensures(LoadBalancerAlgorithmConfig::requires_input_tokens, (&config,), tokens),
        call_ensures(LoadBalancerAlgorithmConfig::considers_kv_free_tokens, (&config,), cache),
    ensures
        !affinity && !tokens && !cache,
        config.max_input_work_seconds is None,
        config.request_algorithms@.len() == 0,
        config.settings is PowerOfN <==> algorithm is PowerOfN,
        config.settings is WaitAndWiden <==> algorithm is WaitAndWiden,
        config.settings is RoundRobin <==> algorithm is RoundRobin,
        config.settings is Random <==> algorithm is Random,
        config.settings is Pulsar <==> algorithm is Pulsar,
        config.settings is PulsarWaitAndWiden <==> algorithm is PulsarWaitAndWiden,
        config.settings matches LoadBalancerAlgorithmSettings::PowerOfN(settings)
            ==> settings.sample_count == 2 && settings.comparator is None,
        seed_of(config.settings) is None,
        from_name.essence() == config.essence(),
        from_name.request_algorithms@.len() == 0,
{
}

/// A configuration in full is used as it is.
pub proof fn detailed_configurations_are_used_as_they_are(
    written: LoadBalancerAlgorithmConfig,
    config: LoadBalancerAlgorithmConfig,
)
    requires
        call_ensures(
            LoadBalancerModelConfig::into_algorithm_config,
            (LoadBalancerModelConfig::Detailed(Box::new(written)),),
            config,
        ),
    ensures
        config.request_policy == written.request_policy,
        config.max_input_work_seconds == written.max_input_work_seconds,
        config.settings == written.settings,
        config.request_algorithms@ == written.request_algorithms@,
{
}

/// Requests whose cache room is considered have to state their input tokens, as have those of which
/// it is asked.
pub proof fn cache_room_needs_input_tokens(
    config: LoadBalancerAlgorithmConfig,
    affinity: bool,
    tokens: bool,
    cache: bool,
)
    requires
        call_ensures(LoadBalancerAlgorithmConfig::requires_cache_affinity_key, (&config,), affinity),
        call_ensures(LoadBalancerAlgorithmConfig::requires_input_tokens, (&config,), tokens),
        call_ensures(LoadBalancerAlgorithmConfig::considers_kv_free_tokens, (&config,), cache),
    ensures
        cache <==> config.request_policy.consider_kv_free_tokens,
        affinity <==> config.request_policy.require_cache_affinity_key,
        cache ==> tokens,
        !cache ==> (tokens <==> config.request_policy.require_input_tokens),
{
}

/// The fields that are common to all algorithms, as they were read.
pub open spec fn common_fields(raw: RawLoadBalancerAlgorithmConfig) -> RawCommonAlgorithmConfig {
    match raw {
        RawLoadBalancerAlgorithmConfig::PowerOfN { settings: _, common } => common,
        RawLoadBalancerAlgorithmConfig::WaitAndWiden { settings: _, common } => common,
        RawLoadBalancerAlgorithmConfig::RoundRobin(common) => common,
        RawLoadBalancerAlgorithmConfig::Random(common) => common,
        RawLoadBalancerAlgorithmConfig::Pulsar { seed: _, consider_kv_free_tokens: _, common } =>
            common,
        RawLoadBalancerAlgorithmConfig::PulsarWaitAndWiden {
            settings: _,
            consider_kv_free_tokens: _,
            common,
        } => common,
    }
}

/// A configuration that was read is taken unless it has fields that its algorithm does not know, or
/// a sample that is empty or of more than 64. What it holds is what was read; what was left out is
/// not asked of requests, and the cache room is considered only by the algorithms that rank.
pub proof fn configurations_hold_what_was_read(
    raw: RawLoadBalancerAlgorithmConfig,
    config: Result<LoadBalancerAlgorithmConfig, LoadBalancerConfigError>,
)
    requires
        call_ensures(RawLoadBalancerAlgorithmConfig::into_config, (raw,), config),
    ensures
        config is Ok <==> common_fields(raw).unsupported_fields@.len() == 0 && (raw
            matches RawLoadBalancerAlgorithmConfig::PowerOfN { settings, common }
            ==> 0 < settings.sample_count < 65),
        config matches Ok(made) ==> {
            &&& made.request_policy.require_cache_affinity_key <==> common_fields(
                raw,
            ).require_cache_affinity_key == Some(true)
            &&& made.request_policy.require_input_tokens <==> common_fields(
                raw,
            ).require_input_tokens == Some(true)
            &&& made.max_input_work_seconds == common_fields(raw).max_input_work_seconds
            &&& made.request_algorithms == common_fields(raw).request_algorithms
            &&& match raw {
                RawLoadBalancerAlgorithmConfig::PowerOfN { settings, common } => made.settings
                    == LoadBalancerAlgorithmSettings::PowerOfN(settings)
                    && !made.request_policy.consider_kv_free_tokens,
                RawLoadBalancerAlgorithmConfig::WaitAndWiden { settings, common } => made.settings
                    == LoadBalancerAlgorithmSettings::WaitAndWiden(settings)
                    && !made.request_policy.consider_kv_free_tokens,
                RawLoadBalancerAlgorithmConfig::RoundRobin(common) => made.settings is RoundRobin
                    && !made.request_policy.consider_kv_free_tokens,
                RawLoadBalancerAlgorithmConfig::Random(common) => made.settings is Random
                    && !made.request_policy.consider_kv_free_tokens,
                RawLoadBalancerAlgorithmConfig::Pulsar { seed, consider_kv_free_tokens, common } =>
                    made.settings == LoadBalancerAlgorithmSettings::Pulsar(seed) && (
                made.request_policy.consider_kv_free_tokens <==> consider_kv_free_tokens == Some(
                    true,
                )),
                RawLoadBalancerAlgorithmConfig::PulsarWaitAndWiden {
                    settings,
                    consider_kv_free_tokens,
                    common,
                } => made.settings == LoadBalancerAlgorithmSettings::PulsarWaitAndWiden(settings)
                    && (made.request_policy.consider_kv_free_tokens <==> consider_kv_free_tokens
                    == Some(true)),
            }
        },
        config matches Err(error) ==> {
            ||| error is SampleCount && raw is PowerOfN
            ||| error is UnsupportedFields && forall|field: Seq<char>|
                texts(error->UnsupportedFields_fields@).contains(field)
                    <==> #[trigger] texts(common_fields(raw).unsupported_fields@).contains(field)
        },
{
}

/// An entry that is put is the only one of its algorithm, and the entries of other algorithms stay.
pub proof fn an_entry_that_is_put_is_found(
    before: Seq<(LoadBalancerAlgorithm, LoadBalancerModelConfig)>,
    algorithm: LoadBalancerAlgorithm,
    model: LoadBalancerModelConfig,
    after: Seq<(LoadBalancerAlgorithm, LoadBalancerModelConfig)>,
    other: LoadBalancerAlgorithm,
    entry: LoadBalancerModelConfig,
)
    requires
        one_entry_each(before),
        has_taken_entry(before, algorithm, model, after),
        other != algorithm,
    ensures
        after.contains((algorithm, model)),
        after.contains((algorithm, entry)) ==> entry == model,
        after.contains((other, entry)) <==> before.contains((other, entry)),
{
    if after == before.push((algorithm, model)) {
        assert(after.last() == (algorithm, model));
        assert forall|i: int| 0 <= i < before.len() implies after[i] == #[trigger] before[i] by {}
    } else {
        let i = choose|i: int|
            0 <= i < before.len() && (#[trigger] before[i]).0 == algorithm && after
                == before.update(i, (algorithm, model));
        assert(after[i] == (algorithm, model));
        assert forall|j: int| 0 <= j < before.len() && j != i implies after[j]
            == #[trigger] before[j] && after[j].0 != algorithm by {
            assert(before[j].0 != before[i].0);
        }
    }
    if before.contains((other, entry)) {
        let i = choose|i: int| 0 <= i < before.len() && before[i] == (other, entry);
        assert(after[i] == before[i]);
    }
    if after.contains((other, entry)) {
        let i = choose|i: int| 0 <= i < after.len() && after[i] == (other, entry);
        assert(i < before.len() && after[i] == before[i]);
    }
}

/// A model that is put is the only one of its name, and the models of other names stay.
pub proof fn a_model_that_is_put_is_found(
    before: Seq<(String, LoadBalancerModelConfig)>,
    model_id: String,
    model: LoadBalancerModelConfig,
    after: Seq<(String, LoadBalancerModelConfig)>,
    other: (String, LoadBalancerModelConfig),
)
    requires
        one_entry_each_model(before),
        has_taken_model(before, model_id, model, after),
    ensures
        after.contains((model_id, model)),
        after.contains(other) && other.0@ == model_id@ ==> other == (model_id, model),
        other.0@ != model_id@ ==> (after.contains(other) <==> before.contains(other)),
{
    if after == before.push((model_id, model)) {
        assert(after.last() == (model_id, model));
        assert forall|i: int| 0 <= i < before.len() implies after[i] == #[trigger] before[i] by {}
    } else {
        let i = choose|i: int|
            0 <= i < before.len() && (#[trigger] before[i]).0@ == model_id@ && after
                == before.update(i, (model_id, model));
        assert(after[i] == (model_id, model));
        assert forall|j: int| 0 <= j < before.len() && j != i implies after[j]
            == #[trigger] before[j] && after[j].0@ != model_id@ by {
            assert(before[j].0@ != before[i].0@);
        }
    }
    if other.0@ != model_id@ {
        if before.contains(other) {
            let i = choose|i: int| 0 <= i < before.len() && before[i] == other;
            assert(after[i] == before[i]);
        }
        if after.contains(other) {
            let i = choose|i: int| 0 <= i < after.len() && after[i] == other;
            assert(i < before.len() && after[i] == before[i]);
        }
    }
}

/// Settings are handed out by the kind of their algorithm, as they are written; a sample count is
/// handed out if it is one to 64.
pub proof fn settings_are_handed_out_by_their_kind(
    config: LoadBalancerAlgorithmConfig,
    widening: Option<&WaitAndWidenAlgorithmConfig>,
    sampling: Option<&PowerOfNAlgorithmConfig>,
    algorithm: LoadBalancerAlgorithm,
    seed: Option<&str>,
)
    requires
        call_ensures(LoadBalancerAlgorithmConfig::wait_and_widen_settings, (&config,), widening),
        call_ensures(LoadBalancerAlgorithmConfig::power_of_n_settings, (&config,), sampling),
        call_ensures(LoadBalancerAlgorithmConfig::algorithm, (&config,), algorithm),
        call_ensures(LoadBalancerAlgorithmConfig::seed, (&config,), seed),
    ensures
        match config.settings {
            LoadBalancerAlgorithmSettings::PowerOfN(written) => algorithm is PowerOfN && widening
                is None && sampling is Some && *sampling->0 == written && seed is None,
            LoadBalancerAlgorithmSettings::WaitAndWiden(written) => algorithm is WaitAndWiden
                && widening is Some && *widening->0 == written && sampling is None && (seed is Some
                <==> written.seed is Some) && (seed is Some ==> seed->0@ == written.seed->0@),
            LoadBalancerAlgorithmSettings::RoundRobin => algorithm is RoundRobin && widening is None
                && sampling is None && seed is None,
            LoadBalancerAlgorithmSettings::Random => algorithm is Random && widening is None
                && sampling is None && seed is None,
            LoadBalancerAlgorithmSettings::Pulsar(written) => algorithm is Pulsar && widening is None
                && sampling is None && (seed is Some <==> written is Some) && (seed is Some
                ==> seed->0@ == written->0@),
            LoadBalancerAlgorithmSettings::PulsarWaitAndWiden(written) => algorithm
                is PulsarWaitAndWiden && widening is Some && *widening->0 == written && sampling
                is None && (seed is Some <==> written.seed is Some) && (seed is Some ==> seed->0@
                == written.seed->0@),
        },
{
}

/// A sample count is accepted from one to 64, as it is.
pub proof fn sample_counts_are_accepted_within_bounds(
    config: PowerOfNAlgorithmConfig,
    validated: Result<usize, LoadBalancerConfigError>,
)
    requires
        call_ensures(PowerOfNAlgorithmConfig::validated_sample_count, (&config,), validated),
    ensures
        validated is Ok <==> 0 < config.sample_count < 65,
        validated is Ok ==> validated->Ok_0 == config.sample_count,
        validated is Err ==> validated->Err_0 == (LoadBalancerConfigError::SampleCount {
            sample_count: config.sample_count,
        }),
{
}

/// Without a configuration every model is balanced by a choice among n, and requests may pick any
/// algorithm; a configuration that is empty lets them pick none.
pub proof fn any_algorithm_can_be_picked_by_default(
    open: LoadBalancerConfig,
    empty: LoadBalancerConfig,
    all: Vec<LoadBalancerAlgorithm>,
    algorithm: LoadBalancerAlgorithm,
)
    requires
        call_ensures(LoadBalancerConfig::permissive_default, (), open),
        call_ensures(LoadBalancerConfig::new, (), empty),
        call_ensures(LoadBalancerAlgorithm::all, (), all),
    ensures
        open.default is PowerOfN && empty.default is PowerOfN,
        open.models@.len() == 0 && empty.models@.len() == 0,
        empty.request_algorithms@.len() == 0,
        all@.contains(algorithm),
        all@.no_duplicates(),
        open.request_algorithms@.contains((algorithm, LoadBalancerModelConfig::Name(algorithm))),
        open.request_algorithms@.len() == all@.len(),
{
    let listed = LoadBalancerAlgorithm::all_algorithms();
    assert(listed[0] is PowerOfN && listed[1] is WaitAndWiden && listed[2] is RoundRobin
        && listed[3] is Random && listed[4] is Pulsar && listed[5] is PulsarWaitAndWiden);
    let place: int = match algorithm {
        LoadBalancerAlgorithm::PowerOfN => 0,
        LoadBalancerAlgorithm::WaitAndWiden => 1,
        LoadBalancerAlgorithm::RoundRobin => 2,
        LoadBalancerAlgorithm::Random => 3,
        LoadBalancerAlgorithm::Pulsar => 4,
        LoadBalancerAlgorithm::PulsarWaitAndWiden => 5,
    };
    assert(all@[place] == algorithm);
    assert(open.request_algorithms@[place] == (
        algorithm,
        LoadBalancerModelConfig::Name(algorithm),
    ));
}

/// What is not configured asks nothing of requests and has nothing written.
pub proof fn defaults_ask_for_nothing(
    policy: LoadBalancerRequestPolicy,
    widening: WaitAndWidenAlgorithmConfig,
    sampling: PowerOfNAlgorithmConfig,
    comparator: ClusterComparator,
    algorithm: LoadBalancerAlgorithm,
)
    requires
        call_ensures(LoadBalancerRequestPolicy::default, (), policy),
        call_ensures(WaitAndWidenAlgorithmConfig::default, (), widening),
        call_ensures(PowerOfNAlgorithmConfig::default, (), sampling),
        call_ensures(ClusterComparator::default, (), comparator),
        call_ensures(LoadBalancerAlgorithm::default, (), algorithm),
    ensures
        !policy.require_cache_affinity_key && !policy.require_input_tokens
            && !policy.consider_kv_free_tokens,
        widening.seed is None && widening.comparator is None && widening.n is None,
        widening.cache_affinity_virtual_nodes is None
            && widening.cache_affinity_backend_selection_count is None,
        widening.max_queue_time_floor_ms is None && widening.max_queue_time_ceil_ms is None,
        widening.ttft_bucket_size_ms is None && widening.next_bucket_unlock_factor is None
            && widening.max_queued is None,
        widening.ignore_queue_time is None && widening.ignore_input_processing_time is None,
        sampling.sample_count == 2 && sampling.comparator is None,
        comparator is EstimatedTtft,
        algorithm is PowerOfN,
{
}

/// A refused configuration is told to the operator with what is wrong in it: the count, the fields, or
/// the two algorithms that do not go together.
pub proof fn refusals_tell_what_is_wrong(error: LoadBalancerConfigError, message: String)
    requires
        call_ensures(LoadBalancerConfigError::message, (&error,), message),
    ensures
        error matches LoadBalancerConfigError::SampleCount { sample_count } ==> message@
            == "power-of-n sample_count must be between 1 and 64, got "@ + decimal_digits(
            sample_count as nat,
        ),
        error matches LoadBalancerConfigError::UnsupportedFields { algorithm, fields } ==> message@
            == algorithm.label() + " config does not support field(s): "@ + joined(
            texts(fields@),
            ", "@,
        ),
        error matches LoadBalancerConfigError::RequestAlgorithmMismatch {
            key,
            configured,
        } ==> message@ == "request_algorithms key "@ + key.label()
            + " does not match configured algorithm "@ + configured.label(),
        error is UnsupportedComparator ==> message@
            == "comparator is not supported for pulsar-wait-and-widen"@,
{
}

} // verus!
