//! Routing of requests to clusters.

use std::collections::hash_map::DefaultHasher;
use std::collections::{HashMap, HashSet};
use std::hash::{Hash, Hasher};
use std::time::Duration;

use rand::rngs::StdRng;
use rand::SeedableRng;
use serde_json::Value;
use stargate::load_balancer::algorithm::{
    algorithm_from_name, LoadBalancerAlgorithm, LoadBalancerAlgorithmOverride,
    LoadBalancerRoutingAlgorithmError,
};
use stargate::load_balancer::comparator::ClusterComparator;
use stargate::load_balancer::config::{
    put_entry, LoadBalancerAlgorithmConfig, LoadBalancerConfig, LoadBalancerConfigError,
    LoadBalancerModelConfig, LoadBalancerSeedError, PowerOfNAlgorithmConfig,
    RawCommonAlgorithmConfig, RawLoadBalancerAlgorithmConfig, WaitAndWidenAlgorithmConfig,
};
use stargate::load_balancer::hashing::{
    cache_affinity_virtual_node_hash, pulsar_hash64, pulsar_hash_input, virtual_node_hash_input,
};
use stargate::load_balancer::measures::Measures;
use stargate::load_balancer::power_of_n::{
    choose_least_loaded, distinct_pair, least_loaded_with_draws, sample_candidates,
    sample_distinct_pair, PowerOfNLoadBalancer, MAX_POWER_OF_N_SAMPLE_COUNT,
};
use stargate::load_balancer::pulsar_wait_and_widen::choose_by_bands;
use stargate::load_balancer::request::{
    ClusterScores, LoadBalancerCandidateChoice, LoadBalancerRequest, ModelStats,
    RoutedClusterSnapshot, RoutingTargetKey,
};
use stargate::load_balancer::router::{LoadBalancerCandidateSelection, LoadBalancerRouter};
use stargate::load_balancer::score::{Order, Score};
use stargate::load_balancer::target_state::{
    DefinitionId, LoadBalancerDefinition, LoadBalancerTargetState, RoutingHints,
};
use stargate::load_balancer::wait_and_widen::{
    has_capacity, shuffle_prefix, swap_prefix, WaitAndWidenConfig, WaitAndWidenLoadBalancer,
};
use stargate::queue_estimate::queue_time_estimate_ms_for_priority;
use stargate::trace::FieldValue;
use xxhash_rust::xxh3::xxh3_64;

fn score(value: f64) -> Score {
    Score { bits: value.to_bits() }
}

fn value(score: Score) -> f64 {
    f64::from_bits(score.bits)
}

#[derive(Clone, Default)]
struct Stats {
    last_mean_input_tps: f64,
    queued_input_size: u64,
    queue_size: u64,
    num_running_queries: u64,
    max_engine_concurrency: u64,
    kv_cache_capacity_tokens: u64,
    kv_cache_used_tokens: u64,
    kv_cache_free_tokens: u64,
    queue_time_estimate_ms_by_priority: HashMap<u32, u64>,
}

#[derive(Clone)]
struct Cluster {
    cluster_id: String,
    stats: Stats,
    rtt: Duration,
}

#[derive(Clone)]
struct Request {
    target: RoutingTargetKey,
    cache_affinity_key: Option<String>,
    input_tokens: Option<u64>,
    priority: u32,
    waited: Duration,
    request_slo: Option<Duration>,
    excluded: Vec<String>,
}

impl Request {
    fn excluding(mut self, ids: &[&str]) -> Self {
        self.excluded = ids.iter().map(|id| id.to_string()).collect();
        self
    }

    fn routed(&self) -> LoadBalancerRequest {
        LoadBalancerRequest {
            routing_target: self.target.clone(),
            input_tokens: self.input_tokens,
            waited_ms: score(self.waited.as_secs_f64() * 1000.0),
            excluded_cluster_ids: self.excluded.clone(),
        }
    }
}

fn processing_delay_seconds(work: f64, rate: f64) -> f64 {
    if work == 0.0 {
        0.0
    } else if rate <= 0.0 {
        f64::INFINITY
    } else {
        work / rate
    }
}

fn input_tps(cluster: &Cluster) -> f64 {
    let tps = cluster.stats.last_mean_input_tps;
    if tps.is_finite() && tps > 0.0 {
        tps
    } else {
        0.0
    }
}

fn scores(request: &Request, cluster: &Cluster) -> ClusterScores {
    let stats = &cluster.stats;
    let tps = input_tps(cluster);
    let tokens = request.input_tokens.unwrap_or_default() as f64;
    let queued = stats.queued_input_size as f64;
    let queue_ms = queue_time_estimate_ms_for_priority(
        &stats.queue_time_estimate_ms_by_priority,
        None,
        request.priority,
    )
    .map_or_else(|| processing_delay_seconds(queued, tps) * 1000.0, |ms| ms as f64);
    let prefill_ms = processing_delay_seconds(tokens, tps) * 1000.0;
    let rtt_ms = cluster.rtt.as_secs_f64() * 1000.0;
    ClusterScores {
        ttft_ms: score(rtt_ms + queue_ms + prefill_ms),
        ttft_without_queue_ms: score(rtt_ms + 0.0 + prefill_ms),
        ttft_without_prefill_ms: score(rtt_ms + queue_ms + 0.0),
        rtt_ms: score(rtt_ms),
        queue_ms: score(queue_ms),
        prefill_ms: score(prefill_ms),
        input_work_seconds: score(processing_delay_seconds(queued + tokens, tps)),
        utilization: score(
            stats.num_running_queries as f64 / stats.max_engine_concurrency.max(1) as f64,
        ),
    }
}

fn snapshots(request: &Request, clusters: &[Cluster]) -> Vec<RoutedClusterSnapshot> {
    clusters
        .iter()
        .map(|cluster| RoutedClusterSnapshot {
            cluster_id: cluster.cluster_id.clone(),
            stats: ModelStats {
                queue_size: cluster.stats.queue_size,
                num_running_queries: cluster.stats.num_running_queries,
                max_engine_concurrency: cluster.stats.max_engine_concurrency,
                kv_cache_capacity_tokens: cluster.stats.kv_cache_capacity_tokens,
                kv_cache_free_tokens: cluster.stats.kv_cache_free_tokens,
            },
            scores: scores(request, cluster),
        })
        .collect()
}

fn max_queue_time_ms(request: &Request, floor_ms: u64, ceil_ms: u64) -> f64 {
    let elapsed = match request.request_slo {
        Some(slo) if !slo.is_zero() => {
            (request.waited.as_secs_f64() / slo.as_secs_f64()).clamp(0.0, 1.0)
        }
        _ => 1.0,
    };
    floor_ms as f64 + (ceil_ms as f64 - floor_ms as f64) * elapsed
}

fn measures(
    request: &Request,
) -> Measures<
    impl Fn(Score, Score, u64) -> bool,
    impl Fn(Score, Score, Score, Score) -> Option<Score>,
    impl Fn(u64, u64) -> Score,
> {
    let request = request.clone();
    Measures {
        exceeds: |from, to, limit: u64| value(to) - value(from) > limit as f64,
        unlock: |waited, from, to, factor| {
            let needed = (value(to) - value(from)) * value(factor);
            if value(waited) < needed {
                None
            } else {
                Some(score(value(waited) - needed))
            }
        },
        queue_limit: move |floor, ceil| score(max_queue_time_ms(&request, floor, ceil)),
    }
}

fn hash_of(parts: &[&str], number: usize) -> u64 {
    let mut hasher = DefaultHasher::new();
    parts.hash(&mut hasher);
    number.hash(&mut hasher);
    hasher.finish()
}

/// A ring of hashes: the first clusters behind the hash of the affinity key, going round.
fn affinity(
    settings: &WaitAndWidenAlgorithmConfig,
    request: &Request,
    clusters: &[Cluster],
) -> Option<Vec<usize>> {
    let count = settings.cache_affinity_backend_selection_count.filter(|count| *count > 0)?;
    let nodes = settings.cache_affinity_virtual_nodes.unwrap_or(150).max(1);
    let key = request.cache_affinity_key.as_deref()?;
    let seed = settings.seed.as_deref().unwrap_or("");
    let routing_key = request.target.routing_key.as_deref().unwrap_or("");
    let model_id = request.target.model_id.as_str();
    let start = hash_of(&[seed, routing_key, model_id, key], 0);
    let config = WaitAndWidenConfig::from_algorithm_config(&wait_and_widen_algorithm_config(
        |written| *written = settings.clone(),
    ));
    let routed = request.routed();
    let snapshots = snapshots(request, clusters);
    let mut ring: Vec<(u64, usize)> = Vec::new();
    for (index, cluster) in snapshots.iter().enumerate() {
        if !request.excluded.contains(&cluster.cluster_id) {
            for node in 0..nodes {
                let hash = cache_affinity_virtual_node_hash(&config, &routed, cluster, node);
                ring.push((hash.wrapping_sub(start), index));
            }
        }
    }
    ring.sort();
    let mut selected: Vec<usize> = Vec::new();
    for (_, index) in ring {
        if selected.len() < count && !selected.contains(&index) {
            selected.push(index);
        }
    }
    Some(selected)
}

/// A weighted ranking by hashes, of the clusters with a valid weight.
fn ranking(seed: &str, request: &Request, clusters: &[Cluster]) -> Vec<usize> {
    let mut ranked: Vec<(f64, usize)> = clusters
        .iter()
        .enumerate()
        .filter(|(_, cluster)| input_tps(cluster) > 0.0)
        .map(|(index, cluster)| {
            let hash = pulsar_hash64(
                Some(seed),
                &request.target.routing_key,
                &request.target.model_id,
                request.cache_affinity_key.as_deref(),
                &cluster.cluster_id,
            );
            let unit = ((hash >> 11) as f64 + 0.5) / (1u64 << 53) as f64;
            (-unit.ln() / input_tps(cluster), index)
        })
        .collect();
    ranked.sort_by(|a, b| a.0.total_cmp(&b.0));
    ranked.into_iter().map(|(_, index)| index).collect()
}

fn hints(
    config: &LoadBalancerAlgorithmConfig,
    request: &Request,
    clusters: &[Cluster],
) -> RoutingHints {
    RoutingHints {
        affinity: config
            .wait_and_widen_settings()
            .and_then(|settings| affinity(settings, request, clusters)),
        ranking: ranking(config.seed().unwrap_or(""), request, clusters),
    }
}

struct Balancer {
    definition: LoadBalancerDefinition,
    state: LoadBalancerTargetState,
}

struct Selected {
    cluster_id: String,
    rank_depth: usize,
    selected_after_kv_free_tokens_skip: bool,
}

fn create_load_balancer_with_config(
    config: LoadBalancerAlgorithmConfig,
) -> Result<Balancer, LoadBalancerConfigError> {
    let id = DefinitionId { router: 0, set: 0, slot: 0 };
    Ok(Balancer {
        definition: LoadBalancerDefinition::new(id, config)?,
        state: LoadBalancerTargetState::default(),
    })
}

fn selected(choice: LoadBalancerCandidateChoice, clusters: &[Cluster]) -> Selected {
    Selected {
        cluster_id: clusters[choice.candidate_index].cluster_id.clone(),
        rank_depth: choice.rank_depth,
        selected_after_kv_free_tokens_skip: choice.selected_after_kv_free_tokens_skip,
    }
}

impl Balancer {
    fn choose_for_test(&mut self, request: &Request, clusters: &[Cluster]) -> Option<Selected> {
        let hints = hints(self.definition.config(), request, clusters);
        self.state
            .choose_for_definition(
                &self.definition,
                &request.routed(),
                &snapshots(request, clusters),
                &hints,
                &measures(request),
            )
            .map(|choice| selected(choice, clusters))
    }

    fn choose_one(&mut self, request: &Request, clusters: &[Cluster]) -> Selected {
        self.choose_for_test(request, clusters).expect("candidate should be selected")
    }
}

fn target_with_model(model_id: &str) -> RoutingTargetKey {
    target_with_routing_key("rk-1", model_id)
}

fn target_with_routing_key(routing_key: &str, model_id: &str) -> RoutingTargetKey {
    RoutingTargetKey { routing_key: Some(routing_key.to_string()), model_id: model_id.to_string() }
}

fn target() -> RoutingTargetKey {
    target_with_model("model-a")
}

fn request(
    target: &RoutingTargetKey,
    cache_affinity_key: Option<&str>,
    input_tokens: Option<u64>,
) -> Request {
    request_with_priority(target, cache_affinity_key, input_tokens, 0)
}

fn request_with_priority(
    target: &RoutingTargetKey,
    cache_affinity_key: Option<&str>,
    input_tokens: Option<u64>,
    priority: u32,
) -> Request {
    Request {
        target: target.clone(),
        cache_affinity_key: cache_affinity_key.map(str::to_string),
        input_tokens,
        priority,
        waited: Duration::ZERO,
        request_slo: None,
        excluded: Vec::new(),
    }
}

fn wait_and_widen_algorithm_config(
    configure: impl FnOnce(&mut WaitAndWidenAlgorithmConfig),
) -> LoadBalancerAlgorithmConfig {
    let mut config = LoadBalancerAlgorithmConfig::new(LoadBalancerAlgorithm::WaitAndWiden);
    configure(
        config
            .wait_and_widen_settings_mut()
            .expect("wait-and-widen config should expose wait_and_widen settings"),
    );
    config
}

fn wait_and_widen_affinity_algorithm_config(
    virtual_nodes: usize,
    selection_count: usize,
    sample_count: Option<usize>,
) -> LoadBalancerAlgorithmConfig {
    wait_and_widen_algorithm_config(|settings| {
        settings.seed = Some("seed-1".to_string());
        settings.cache_affinity_virtual_nodes = Some(virtual_nodes);
        settings.cache_affinity_backend_selection_count = Some(selection_count);
        settings.n = sample_count;
    })
}

fn affinity_settings(
    virtual_nodes: usize,
    selection_count: usize,
    sample_count: Option<usize>,
) -> WaitAndWidenAlgorithmConfig {
    wait_and_widen_affinity_algorithm_config(virtual_nodes, selection_count, sample_count)
        .wait_and_widen_settings()
        .expect("wait-and-widen config should expose wait_and_widen settings")
        .clone()
}

fn seeded_pulsar_algorithm_config(seed: &str) -> LoadBalancerAlgorithmConfig {
    let mut config = LoadBalancerAlgorithmConfig::new(LoadBalancerAlgorithm::Pulsar);
    config.set_seed(Some(seed.to_string())).expect("pulsar supports deterministic seeding");
    config.request_policy_mut().require_cache_affinity_key = true;
    config.request_policy_mut().require_input_tokens = true;
    config
}

fn kv_aware_pulsar_algorithm_config(seed: &str) -> LoadBalancerAlgorithmConfig {
    let mut config = seeded_pulsar_algorithm_config(seed);
    config.request_policy_mut().consider_kv_free_tokens = true;
    config
}

fn pulsar(config: LoadBalancerAlgorithmConfig) -> Balancer {
    create_load_balancer_with_config(config).expect("factory should accept pulsar")
}

fn candidate(id: &str, kv_cache_free_tokens: u64) -> Cluster {
    Cluster {
        cluster_id: id.to_string(),
        stats: Stats {
            last_mean_input_tps: 100.0,
            kv_cache_capacity_tokens: 1024,
            kv_cache_used_tokens: 1024 - kv_cache_free_tokens,
            kv_cache_free_tokens,
            ..Stats::default()
        },
        rtt: Duration::from_millis(5),
    }
}

fn candidates(ids: &[&str]) -> Vec<Cluster> {
    ids.iter().map(|id| candidate(id, 1024)).collect()
}

impl Cluster {
    fn with_rtt_ms(mut self, rtt_ms: u64) -> Self {
        self.rtt = Duration::from_millis(rtt_ms);
        self
    }

    fn with_stats(mut self, configure: impl FnOnce(&mut Stats)) -> Self {
        configure(&mut self.stats);
        self
    }
}

fn work_candidate(id: &str, rtt_ms: u64, input_tps: f64, queued_input: u64) -> Cluster {
    candidate(id, 1024).with_rtt_ms(rtt_ms).with_stats(|stats| {
        stats.last_mean_input_tps = input_tps;
        stats.queued_input_size = queued_input;
    })
}

fn concurrency_candidate(id: &str, rtt_ms: u64, maximum: u64, running: u64) -> Cluster {
    candidate(id, 1024).with_rtt_ms(rtt_ms).with_stats(|stats| {
        stats.max_engine_concurrency = maximum;
        stats.num_running_queries = running;
    })
}

fn priority_candidate(id: &str, priority: u32, queue_time_ms: u64) -> Cluster {
    candidate(id, 1024).with_stats(|stats| {
        stats.queue_time_estimate_ms_by_priority.insert(priority, queue_time_ms);
    })
}

fn wait_and_widen_load_balancer(
    configure: impl FnOnce(&mut WaitAndWidenAlgorithmConfig),
) -> Balancer {
    create_load_balancer_with_config(wait_and_widen_algorithm_config(configure))
        .expect("factory should accept wait-and-widen")
}

fn assert_repeated_choice(
    load_balancer: &mut Balancer,
    request: &Request,
    candidates: &[Cluster],
    samples: usize,
    expected_cluster_id: &str,
) {
    for _ in 0..samples {
        let chosen = load_balancer.choose_one(request, candidates);
        assert_eq!(chosen.cluster_id, expected_cluster_id);
    }
}

fn check_wait_and_widen(
    configure: impl FnOnce(&mut WaitAndWidenAlgorithmConfig),
    request: Request,
    candidates: &[Cluster],
    samples: usize,
    expected: &str,
) {
    let mut load_balancer = wait_and_widen_load_balancer(configure);
    assert_repeated_choice(&mut load_balancer, &request, candidates, samples, expected);
}

fn assert_excluded_queue_choice(rtt_only: bool, excluded_ids: &[&str]) {
    let mut load_balancer = wait_and_widen_load_balancer(|settings| {
        settings.n = Some(2);
        settings.ignore_queue_time = Some(true);
        settings.ignore_input_processing_time = if rtt_only { Some(true) } else { None };
    });
    let request = request(&target(), None, Some(512)).excluding(excluded_ids);
    let mut candidates = excluded_ids
        .iter()
        .map(|id| candidate(id, 1024).with_rtt_ms(5))
        .collect::<Vec<_>>();
    candidates.extend([
        work_candidate("higher-queue", 50, 100.0, 2),
        work_candidate("lower-queue", 50, 100.0, 1),
    ]);
    assert_repeated_choice(&mut load_balancer, &request, &candidates, 16, "lower-queue");
}

fn parse_algorithm(value: &Value) -> Result<LoadBalancerAlgorithm, String> {
    let name = value.as_str().expect("algorithm names are strings");
    algorithm_from_name(name).ok_or_else(|| format!("unknown algorithm {name}"))
}

fn parse_comparator(value: &Value) -> ClusterComparator {
    for comparator in [
        ClusterComparator::EstimatedTtft,
        ClusterComparator::QueueTime,
        ClusterComparator::InputWorkSeconds,
        ClusterComparator::Utilization,
        ClusterComparator::NumRequestsQueued,
    ] {
        if value.as_str() == Some(comparator.as_str()) {
            return comparator;
        }
    }
    panic!("unknown comparator {value}");
}

fn parse_entries(
    value: &Value,
) -> Result<Vec<(LoadBalancerAlgorithm, LoadBalancerModelConfig)>, String> {
    let mut entries = Vec::new();
    for (key, entry) in value.as_object().expect("request algorithms are an object") {
        let algorithm =
            algorithm_from_name(key).ok_or_else(|| format!("unknown algorithm {key}"))?;
        put_entry(&mut entries, algorithm, parse_model(entry)?);
    }
    Ok(entries)
}

fn parse_detailed(value: &Value) -> Result<LoadBalancerAlgorithmConfig, String> {
    let mut fields = value.as_object().expect("detailed configurations are objects").clone();
    let algorithm = parse_algorithm(&fields.remove("algorithm").expect("algorithm is required"))?;
    let mut flag = |name: &str| fields.remove(name).map(|value| value == Value::Bool(true));
    let require_cache_affinity_key = flag("require_cache_affinity_key");
    let require_input_tokens = flag("require_input_tokens");
    let max_input_work_seconds =
        fields.remove("max_input_work_seconds").map(|value| score(value.as_f64().unwrap()));
    let request_algorithms = match fields.remove("request_algorithms") {
        Some(entries) => parse_entries(&entries)?,
        None => Vec::new(),
    };
    let ranked = matches!(
        algorithm,
        LoadBalancerAlgorithm::Pulsar | LoadBalancerAlgorithm::PulsarWaitAndWiden
    );
    let consider_kv_free_tokens = if ranked {
        fields.remove("consider_kv_free_tokens").map(|value| value == Value::Bool(true))
    } else {
        None
    };
    let mut power_of_n = PowerOfNAlgorithmConfig::default();
    let mut wait_and_widen = wait_and_widen_algorithm_config(|_| {})
        .wait_and_widen_settings()
        .expect("settings")
        .clone();
    let mut pulsar_seed = None;
    let text = |value: Value| value.as_str().map(str::to_string);
    let count = |value: Value| value.as_u64().map(|number| number as usize);
    match algorithm {
        LoadBalancerAlgorithm::PowerOfN => {
            if let Some(value) = fields.remove("sample_count") {
                power_of_n.sample_count = count(value).unwrap();
            }
            power_of_n.comparator = fields.remove("comparator").map(|v| parse_comparator(&v));
        }
        LoadBalancerAlgorithm::WaitAndWiden | LoadBalancerAlgorithm::PulsarWaitAndWiden => {
            let s = &mut wait_and_widen;
            s.seed = fields.remove("seed").and_then(text);
            s.comparator = fields.remove("comparator").map(|v| parse_comparator(&v));
            s.cache_affinity_virtual_nodes =
                fields.remove("cache_affinity_virtual_nodes").and_then(count);
            s.cache_affinity_backend_selection_count =
                fields.remove("cache_affinity_backend_selection_count").and_then(count);
            s.max_queue_time_floor_ms =
                fields.remove("max_queue_time_floor_ms").and_then(|v| v.as_u64());
            s.max_queue_time_ceil_ms =
                fields.remove("max_queue_time_ceil_ms").and_then(|v| v.as_u64());
            s.ttft_bucket_size_ms = fields.remove("ttft_bucket_size_ms").and_then(|v| v.as_u64());
            s.n = fields.remove("n").and_then(count);
        }
        LoadBalancerAlgorithm::Pulsar => pulsar_seed = fields.remove("seed").and_then(text),
        LoadBalancerAlgorithm::RoundRobin | LoadBalancerAlgorithm::Random => {}
    }
    let common = RawCommonAlgorithmConfig {
        require_cache_affinity_key,
        require_input_tokens,
        max_input_work_seconds,
        request_algorithms,
        unsupported_fields: fields.keys().cloned().collect(),
    };
    let raw = match algorithm {
        LoadBalancerAlgorithm::PowerOfN => {
            RawLoadBalancerAlgorithmConfig::PowerOfN { settings: power_of_n, common }
        }
        LoadBalancerAlgorithm::WaitAndWiden => {
            RawLoadBalancerAlgorithmConfig::WaitAndWiden { settings: wait_and_widen, common }
        }
        LoadBalancerAlgorithm::RoundRobin => RawLoadBalancerAlgorithmConfig::RoundRobin(common),
        LoadBalancerAlgorithm::Random => RawLoadBalancerAlgorithmConfig::Random(common),
        LoadBalancerAlgorithm::Pulsar => RawLoadBalancerAlgorithmConfig::Pulsar {
            seed: pulsar_seed,
            consider_kv_free_tokens,
            common,
        },
        LoadBalancerAlgorithm::PulsarWaitAndWiden => {
            RawLoadBalancerAlgorithmConfig::PulsarWaitAndWiden {
                settings: wait_and_widen,
                consider_kv_free_tokens,
                common,
            }
        }
    };
    raw.into_config().map_err(|error| error.message())
}

fn parse_model(value: &Value) -> Result<LoadBalancerModelConfig, String> {
    match value {
        Value::String(_) => Ok(LoadBalancerModelConfig::Name(parse_algorithm(value)?)),
        _ => Ok(LoadBalancerModelConfig::Detailed(Box::new(parse_detailed(value)?))),
    }
}

fn parse_config(raw: &str) -> Result<LoadBalancerConfig, String> {
    let parsed: Value = serde_json::from_str(raw).map_err(|error| error.to_string())?;
    let mut config = LoadBalancerConfig::new();
    for (field, value) in parsed.as_object().expect("configurations are objects") {
        match field.as_str() {
            "default" => config.default = parse_algorithm(value)?,
            "request_algorithms" => config.request_algorithms = parse_entries(value)?,
            "models" => {
                for (model, entry) in value.as_object().expect("models are an object") {
                    config.put_model(model.clone(), parse_model(entry)?);
                }
            }
            _ => return Err(format!("unknown field {field}")),
        }
    }
    Ok(config)
}

fn parse_json(raw: &str) -> LoadBalancerConfig {
    parse_config(raw).expect("config should parse")
}

fn parse_algorithm_config(raw: &str) -> Result<LoadBalancerAlgorithmConfig, String> {
    parse_detailed(&serde_json::from_str(raw).expect("JSON should parse"))
}

fn assert_rejected<T>(parsed: Result<T, String>, expected: &str) {
    let error = parsed.err().expect("invalid config should be rejected");
    assert!(error.contains(expected), "expected {expected} in parse error, got: {error}");
}

fn router_from_json(raw: &str) -> LoadBalancerRouter {
    LoadBalancerRouter::from_config(parse_json(raw), 0).expect("router should build")
}

fn router_with_default(default: LoadBalancerAlgorithm) -> LoadBalancerRouter {
    router_with_options(default, &[], None)
}

fn router_with_model(
    default: LoadBalancerAlgorithm,
    model_id: &str,
    model: LoadBalancerModelConfig,
) -> LoadBalancerRouter {
    router_with_options(default, &[], Some((model_id, model)))
}

fn router_with_options(
    default: LoadBalancerAlgorithm,
    request_algorithms: &[LoadBalancerAlgorithm],
    model: Option<(&str, LoadBalancerModelConfig)>,
) -> LoadBalancerRouter {
    router_with_id(default, request_algorithms, model, 0)
}

fn router_with_id(
    default: LoadBalancerAlgorithm,
    request_algorithms: &[LoadBalancerAlgorithm],
    model: Option<(&str, LoadBalancerModelConfig)>,
    id: u64,
) -> LoadBalancerRouter {
    LoadBalancerRouter::from_config(
        LoadBalancerConfig {
            default,
            request_algorithms: request_algorithms
                .iter()
                .copied()
                .map(|algorithm| (algorithm, LoadBalancerModelConfig::Name(algorithm)))
                .collect(),
            models: model.map(|(id, config)| (id.to_string(), config)).into_iter().collect(),
        },
        id,
    )
    .expect("router config should parse")
}

fn choose_candidate(
    router: &LoadBalancerRouter,
    target_state: &mut LoadBalancerTargetState,
    request: &Request,
    candidates: &[Cluster],
) -> Option<LoadBalancerCandidateChoice> {
    router.choose_candidate(
        target_state,
        &request.routed(),
        &snapshots(request, candidates),
        &RoutingHints::none(),
        &measures(request),
    )
}

fn choose_from_router(
    router: &LoadBalancerRouter,
    target_state: &mut LoadBalancerTargetState,
    request: &Request,
    candidates: &[Cluster],
) -> Selected {
    let choice = choose_candidate(router, target_state, request, candidates)
        .expect("candidate should be selected");
    selected(choice, candidates)
}

fn try_override(
    router: &LoadBalancerRouter,
    target_state: &mut LoadBalancerTargetState,
    request: &Request,
    candidates: &[Cluster],
    algorithm: &str,
) -> Result<Option<LoadBalancerCandidateSelection>, LoadBalancerRoutingAlgorithmError> {
    let algorithm = LoadBalancerAlgorithmOverride::parse(algorithm)
        .expect("routing algorithm override should parse");
    router.choose_candidate_with_algorithm_override(
        target_state,
        &request.routed(),
        &snapshots(request, candidates),
        Some(&algorithm),
        &RoutingHints::none(),
        &measures(request),
    )
}

fn choose_with_override(
    router: &LoadBalancerRouter,
    target_state: &mut LoadBalancerTargetState,
    request: &Request,
    candidates: &[Cluster],
    algorithm: &str,
) -> LoadBalancerCandidateSelection {
    try_override(router, target_state, request, candidates, algorithm)
        .expect("routing method should be available")
        .expect("candidate should be selected")
}

fn round_robin_override_choice(
    router: &LoadBalancerRouter,
    target_state: &mut LoadBalancerTargetState,
    request: &Request,
    candidates: &[Cluster],
) -> LoadBalancerCandidateChoice {
    choose_with_override(router, target_state, request, candidates, "round-robin").choice
}

fn selected_cluster_id(choice: LoadBalancerCandidateChoice, candidates: &[Cluster]) -> &str {
    &candidates[choice.candidate_index].cluster_id
}

fn assert_independent_round_robin_sequences(
    router: &LoadBalancerRouter,
    targets: [RoutingTargetKey; 2],
    candidate_ids: [&[&str]; 2],
    expected: [&[&str]; 2],
) {
    assert_eq!(expected[0].len(), expected[1].len());
    let requests = [request(&targets[0], None, None), request(&targets[1], None, None)];
    let candidates = candidate_ids.map(candidates);
    let mut states = [LoadBalancerTargetState::default(), LoadBalancerTargetState::default()];

    for (expected_a, expected_b) in expected[0].iter().zip(expected[1]) {
        for (index, expected_cluster_id) in [expected_a, expected_b].into_iter().enumerate() {
            assert_eq!(
                choose_from_router(
                    router,
                    &mut states[index],
                    &requests[index],
                    &candidates[index]
                )
                .cluster_id,
                *expected_cluster_id,
            );
        }
    }
}

fn assert_algorithm_overrides(raw: impl Fn(LoadBalancerAlgorithm) -> String) {
    for algorithm in [
        LoadBalancerAlgorithm::WaitAndWiden,
        LoadBalancerAlgorithm::PowerOfN,
        LoadBalancerAlgorithm::Pulsar,
        LoadBalancerAlgorithm::PulsarWaitAndWiden,
        LoadBalancerAlgorithm::Random,
        LoadBalancerAlgorithm::RoundRobin,
    ] {
        let raw = raw(algorithm);
        let parsed = LoadBalancerAlgorithmOverride::parse(&raw).unwrap();
        assert_eq!(
            (parsed.requested_algorithm(), parsed.algorithm()),
            (raw.as_str(), algorithm)
        );
    }
}

#[test]
fn set_seed_reports_unsupported_algorithms_without_panicking() {
    for algorithm in [
        LoadBalancerAlgorithm::PowerOfN,
        LoadBalancerAlgorithm::RoundRobin,
        LoadBalancerAlgorithm::Random,
    ] {
        let mut config = LoadBalancerAlgorithmConfig::new(algorithm);
        assert_eq!(
            config.set_seed(Some("seed-1".to_string())),
            Err(LoadBalancerSeedError::Unsupported { algorithm })
        );
        assert_eq!(config.seed(), None);
    }
}

#[test]
fn pulsar_wait_and_widen_seed_has_one_authoritative_owner() {
    let mut config = LoadBalancerAlgorithmConfig::new(LoadBalancerAlgorithm::PulsarWaitAndWiden);
    config
        .wait_and_widen_settings_mut()
        .expect("pulsar-wait-and-widen should expose wait_and_widen settings")
        .seed = Some("shared-seed".to_string());

    assert_eq!(config.seed(), Some("shared-seed"));
}

#[test]
fn simple_model_config_parses_to_algorithm_enum() {
    let config = parse_json(r#"{"default":"wait-and-widen","models":{"model-a":"round-robin"}}"#);

    assert_eq!(config.default, LoadBalancerAlgorithm::WaitAndWiden);
    assert_eq!(config.default.as_str(), "wait-and-widen");
    assert_eq!(config.models[0].0, "model-a");
    assert!(matches!(
        config.models[0].1,
        LoadBalancerModelConfig::Name(LoadBalancerAlgorithm::RoundRobin)
    ));
}

#[test]
fn detailed_model_config_parses_input_work_admission_limit() {
    let mut config = parse_json(
        r#"{"models":{"model-a":{"algorithm":"power-of-n","max_input_work_seconds":2.5}}}"#,
    );

    let (model, detailed) = config.models.remove(0);
    assert_eq!(model, "model-a");
    assert_eq!(
        detailed.into_algorithm_config().max_input_work_seconds.map(value),
        Some(2.5)
    );
}

#[test]
fn routing_algorithm_override_parses_canonical_algorithm_names_from_algorithm_parser() {
    assert_algorithm_overrides(|algorithm| {
        let raw = algorithm.as_str().to_string();
        assert_eq!(algorithm_from_name(&raw), Some(algorithm));
        raw
    });
}

#[test]
fn routing_algorithm_override_parses_header_aliases_for_kebab_case_algorithm_names() {
    assert_algorithm_overrides(|algorithm| algorithm.as_str().replace('-', "_"));
}

#[test]
fn routing_algorithm_override_rejects_empty_and_unknown_names() {
    assert_eq!(
        LoadBalancerAlgorithmOverride::parse(""),
        Err(LoadBalancerRoutingAlgorithmError::Unknown { raw: String::new() })
    );
    assert_eq!(
        LoadBalancerAlgorithmOverride::parse("sticky"),
        Err(LoadBalancerRoutingAlgorithmError::Unknown { raw: "sticky".to_string() })
    );
}

#[test]
fn invalid_algorithm_name_fails_during_parse() {
    assert_rejected(parse_config(r#"{"default":"not-a-real-lb"}"#), "not-a-real-lb");
}

#[test]
fn algorithm_specific_load_balancer_fields_are_rejected_for_other_algorithms() {
    for (raw, expected_field) in [
        (r#"{"algorithm":"round-robin","seed":"unused"}"#, "seed"),
        (r#"{"algorithm":"pulsar","max_queue_time_floor_ms":100}"#, "max_queue_time_floor_ms"),
        (
            r#"{"algorithm":"wait-and-widen","consider_kv_free_tokens":true}"#,
            "consider_kv_free_tokens",
        ),
        (r#"{"algorithm":"random","sample_count":4}"#, "sample_count"),
        (r#"{"algorithm":"random","comparator":"estimated-ttft"}"#, "comparator"),
    ] {
        assert_rejected(parse_algorithm_config(raw), expected_field);
    }
}

#[test]
fn kv_free_token_consideration_is_rejected_for_non_pulsar_algorithms() {
    assert_rejected(
        parse_config(
            r#"{"models":{"model-a":{"algorithm":"round-robin","consider_kv_free_tokens":true}}}"#,
        ),
        "consider_kv_free_tokens",
    );
}

#[test]
fn power_of_n_sample_count_defaults_to_two() {
    let config = LoadBalancerAlgorithmConfig::new(LoadBalancerAlgorithm::PowerOfN);
    let settings = config
        .power_of_n_settings()
        .expect("power-of-n config should expose settings");

    assert_eq!(settings.sample_count, 2);
}

#[test]
fn comparator_defaults_to_estimated_ttft_only_for_supported_algorithms() {
    for algorithm in [LoadBalancerAlgorithm::PowerOfN, LoadBalancerAlgorithm::WaitAndWiden] {
        assert_eq!(
            LoadBalancerAlgorithmConfig::new(algorithm).comparator(),
            Some(ClusterComparator::EstimatedTtft)
        );
    }

    for algorithm in [
        LoadBalancerAlgorithm::RoundRobin,
        LoadBalancerAlgorithm::Random,
        LoadBalancerAlgorithm::Pulsar,
        LoadBalancerAlgorithm::PulsarWaitAndWiden,
    ] {
        assert_eq!(LoadBalancerAlgorithmConfig::new(algorithm).comparator(), None);
    }
}

#[test]
fn configured_comparators_resolve_for_models_and_request_overrides() {
    let direct =
        parse_algorithm_config(r#"{"algorithm":"power-of-n","comparator":"input-work-seconds"}"#)
            .expect("config should parse");
    assert_eq!(direct.comparator(), Some(ClusterComparator::InputWorkSeconds));

    let router = router_from_json(
        r#"{"default":"random","request_algorithms":{"power-of-n":{"algorithm":"power-of-n","comparator":"queue-time"}},"models":{"model-a":{"algorithm":"wait-and-widen","comparator":"utilization","request_algorithms":{"power-of-n":{"algorithm":"power-of-n","comparator":"num-requests-queued"}}}}}"#,
    );
    assert_eq!(
        router.algorithm_config("model-a").comparator(),
        Some(ClusterComparator::Utilization)
    );

    let override_header = LoadBalancerAlgorithmOverride::parse("power-of-n")
        .expect("power-of-n override should parse");
    assert_eq!(
        router
            .resolve_algorithm_override("model-a", Some(&override_header))
            .expect("model request override should resolve")
            .config()
            .comparator(),
        Some(ClusterComparator::NumRequestsQueued)
    );
    assert_eq!(
        router
            .resolve_algorithm_override("model-b", Some(&override_header))
            .expect("top-level request override should resolve")
            .config()
            .comparator(),
        Some(ClusterComparator::QueueTime)
    );
}

#[test]
fn pulsar_wait_and_widen_rejects_explicit_comparator() {
    let config = parse_json(
        r#"{"models":{"model-a":{"algorithm":"pulsar-wait-and-widen","comparator":"estimated-ttft"}}}"#,
    );
    let error = match LoadBalancerRouter::from_config(config, 0) {
        Ok(_) => panic!("pulsar-wait-and-widen comparator should be rejected"),
        Err(error) => error,
    };
    assert!(error
        .message()
        .contains("comparator is not supported for pulsar-wait-and-widen"));
}

#[test]
fn detailed_power_of_n_sample_count_parses_in_every_supported_context() {
    let direct = parse_algorithm_config(r#"{"algorithm":"power-of-n","sample_count":1}"#)
        .expect("config should parse");
    assert_eq!(
        direct
            .power_of_n_settings()
            .expect("direct config should expose settings")
            .sample_count,
        1
    );

    let router = router_from_json(
        r#"{"default":"random","request_algorithms":{"power-of-n":{"algorithm":"power-of-n","sample_count":4}},"models":{"model-a":{"algorithm":"power-of-n","sample_count":8,"request_algorithms":{"power-of-n":{"algorithm":"power-of-n","sample_count":64}}}}}"#,
    );
    assert_eq!(
        router
            .algorithm_config("model-a")
            .power_of_n_settings()
            .expect("model config should expose settings")
            .sample_count,
        8
    );

    let override_header = LoadBalancerAlgorithmOverride::parse("power-of-n")
        .expect("power-of-n override should parse");
    let model_override = router
        .resolve_algorithm_override("model-a", Some(&override_header))
        .expect("model override should resolve");
    let default_override = router
        .resolve_algorithm_override("model-b", Some(&override_header))
        .expect("top-level override should resolve");
    assert_eq!(
        model_override
            .config()
            .power_of_n_settings()
            .expect("model override should expose settings")
            .sample_count,
        8,
        "the configured model algorithm takes precedence over its same-algorithm override"
    );
    assert_eq!(
        default_override
            .config()
            .power_of_n_settings()
            .expect("top-level override should expose settings")
            .sample_count,
        4
    );

    let nested_router = router_from_json(
        r#"{"default":"random","models":{"model-a":{"algorithm":"random","request_algorithms":{"power-of-n":{"algorithm":"power-of-n","sample_count":64}}}}}"#,
    );
    let nested_override = nested_router
        .resolve_algorithm_override("model-a", Some(&override_header))
        .expect("nested override should resolve");
    assert_eq!(
        nested_override
            .config()
            .power_of_n_settings()
            .expect("nested override should expose settings")
            .sample_count,
        64
    );
}

#[test]
fn invalid_power_of_n_sample_counts_are_rejected_with_field_context() {
    for sample_count in [0, MAX_POWER_OF_N_SAMPLE_COUNT + 1] {
        assert_rejected(
            parse_algorithm_config(&format!(
                r#"{{"algorithm":"power-of-n","sample_count":{sample_count}}}"#
            )),
            "power-of-n sample_count must be between 1 and 64",
        );
    }

    let mut config = LoadBalancerAlgorithmConfig::new(LoadBalancerAlgorithm::PowerOfN);
    config
        .power_of_n_settings_mut()
        .expect("power-of-n config should expose mutable settings")
        .sample_count = 0;
    let error = match create_load_balancer_with_config(config) {
        Ok(_) => panic!("programmatic invalid sample count should fail"),
        Err(error) => error,
    };
    assert!(error.message().contains("power-of-n sample_count"));
}

#[test]
fn detailed_algorithm_configs_preserve_all_variant_identities() {
    for (raw, expected, expected_seed, considers_kv_free_tokens) in [
        (r#"{"algorithm":"power-of-n"}"#, LoadBalancerAlgorithm::PowerOfN, None, false),
        (
            r#"{"algorithm":"wait-and-widen","seed":"wait-and-widen-seed"}"#,
            LoadBalancerAlgorithm::WaitAndWiden,
            Some("wait-and-widen-seed"),
            false,
        ),
        (r#"{"algorithm":"round-robin"}"#, LoadBalancerAlgorithm::RoundRobin, None, false),
        (r#"{"algorithm":"random"}"#, LoadBalancerAlgorithm::Random, None, false),
        (
            r#"{"algorithm":"pulsar","seed":"pulsar-seed","consider_kv_free_tokens":true}"#,
            LoadBalancerAlgorithm::Pulsar,
            Some("pulsar-seed"),
            true,
        ),
        (
            r#"{"algorithm":"pulsar-wait-and-widen","seed":"hybrid-seed","consider_kv_free_tokens":true}"#,
            LoadBalancerAlgorithm::PulsarWaitAndWiden,
            Some("hybrid-seed"),
            true,
        ),
    ] {
        let config = parse_algorithm_config(raw).expect("config should parse");
        assert_eq!(config.algorithm(), expected);
        assert_eq!(config.seed(), expected_seed);
        assert_eq!(config.considers_kv_free_tokens(), considers_kv_free_tokens);
    }
}

#[test]
fn detailed_model_config_parses_for_pulsar() {
    let router = router_from_json(
        r#"{"default":"power-of-n","models":{"model-a":{"algorithm":"pulsar","seed":"seed-1","require_cache_affinity_key":true,"consider_kv_free_tokens":true}}}"#,
    );
    let model_config = router.algorithm_config("model-a");
    assert_eq!(model_config.algorithm(), LoadBalancerAlgorithm::Pulsar);
    assert_eq!(model_config.seed(), Some("seed-1"));
    assert!(model_config.requires_cache_affinity_key());
    assert!(model_config.requires_input_tokens());
    assert!(model_config.considers_kv_free_tokens());
}

#[test]
fn detailed_model_config_parses_for_pulsar_wait_and_widen() {
    let router = router_from_json(
        r#"{"default":"power-of-n","models":{"model-a":{"algorithm":"pulsar-wait-and-widen","seed":"seed-1","require_cache_affinity_key":true,"require_input_tokens":true,"max_queue_time_floor_ms":100,"max_queue_time_ceil_ms":100,"ttft_bucket_size_ms":50,"n":2}}}"#,
    );
    let model_config = router.algorithm_config("model-a");
    assert_eq!(model_config.algorithm(), LoadBalancerAlgorithm::PulsarWaitAndWiden);
    assert_eq!(model_config.seed(), Some("seed-1"));
    assert!(model_config.requires_cache_affinity_key());
    assert!(model_config.requires_input_tokens());
    let wait_and_widen_settings = model_config
        .wait_and_widen_settings()
        .expect("hybrid config should include wait_and_widen settings");
    assert_eq!(wait_and_widen_settings.max_queue_time_floor_ms, Some(100));
    assert_eq!(wait_and_widen_settings.max_queue_time_ceil_ms, Some(100));
    assert_eq!(wait_and_widen_settings.ttft_bucket_size_ms, Some(50));
    assert_eq!(wait_and_widen_settings.n, Some(2));
}

#[test]
fn legacy_algorithm_names_remain_compatible_in_short_configs() {
    let config = parse_json(
        r#"{"default":"groq-multiregion","request_algorithms":{"pulsar-multiregion":"groq-multiregion"},"models":{"model-a":"pulsar-multiregion"}}"#,
    );

    assert_eq!(config.default, LoadBalancerAlgorithm::WaitAndWiden);
    assert_eq!(config.request_algorithms[0].0, LoadBalancerAlgorithm::PulsarWaitAndWiden);
    assert!(matches!(
        config.request_algorithms[0].1,
        LoadBalancerModelConfig::Name(LoadBalancerAlgorithm::WaitAndWiden)
    ));
    assert_eq!(config.models[0].0, "model-a");
    assert!(matches!(
        config.models[0].1,
        LoadBalancerModelConfig::Name(LoadBalancerAlgorithm::PulsarWaitAndWiden)
    ));

    for (legacy_name, expected_algorithm) in [
        ("groq-multiregion", LoadBalancerAlgorithm::WaitAndWiden),
        ("pulsar-multiregion", LoadBalancerAlgorithm::PulsarWaitAndWiden),
    ] {
        let algorithm_override = LoadBalancerAlgorithmOverride::parse(legacy_name)
            .expect("legacy routing override should remain compatible");
        assert_eq!(algorithm_override.algorithm(), expected_algorithm);
        assert_eq!(algorithm_override.requested_algorithm(), legacy_name);
    }
}

#[test]
fn legacy_algorithm_names_remain_compatible_in_detailed_configs() {
    let router = router_from_json(
        r#"{"default":"power-of-n","models":{"wait-model":{"algorithm":"groq-multiregion","seed":"seed-1"},"pulsar-model":{"algorithm":"pulsar-multiregion","seed":"seed-2","max_queue_time_floor_ms":100,"max_queue_time_ceil_ms":200}}}"#,
    );

    assert_eq!(
        router.algorithm_config("wait-model").algorithm(),
        LoadBalancerAlgorithm::WaitAndWiden
    );
    assert_eq!(
        router.algorithm_config("pulsar-model").algorithm(),
        LoadBalancerAlgorithm::PulsarWaitAndWiden
    );
    assert_eq!(router.algorithm_config("pulsar-model").seed(), Some("seed-2"));
}

#[test]
fn detailed_model_config_parses_wait_and_widen_cache_affinity() {
    let router = router_from_json(
        r#"{"default":"power-of-n","models":{"model-a":{"algorithm":"wait-and-widen","seed":"seed-1","require_cache_affinity_key":true,"cache_affinity_virtual_nodes":64,"cache_affinity_backend_selection_count":2}}}"#,
    );
    let model_config = router.algorithm_config("model-a");
    assert_eq!(model_config.algorithm(), LoadBalancerAlgorithm::WaitAndWiden);
    assert_eq!(model_config.seed(), Some("seed-1"));
    assert!(model_config.requires_cache_affinity_key());
    let wait_and_widen_config = WaitAndWidenConfig::from_algorithm_config(model_config);
    assert_eq!(wait_and_widen_config.cache_affinity_virtual_nodes, 64);
    assert_eq!(wait_and_widen_config.cache_affinity_backend_selection_count, Some(2));
}

#[test]
fn request_algorithms_parse_and_override_default_selection() {
    let router = router_from_json(
        r#"{"default":"power-of-n","request_algorithms":{"round-robin":"round-robin"}}"#,
    );
    let target = target_with_model("model-a");
    let request = request(&target, None, None);
    let candidates = candidates(&["cluster-0", "cluster-1"]);
    let mut target_state = LoadBalancerTargetState::default();
    let first =
        choose_with_override(&router, &mut target_state, &request, &candidates, "round_robin")
            .choice;
    let second =
        choose_with_override(&router, &mut target_state, &request, &candidates, "round_robin")
            .choice;

    assert_eq!(selected_cluster_id(first, &candidates), "cluster-0");
    assert_eq!(selected_cluster_id(second, &candidates), "cluster-1");
}

#[test]
fn choose_candidate_returns_slice_index_for_selected_cluster() {
    let router = router_from_json(r#"{"default":"round-robin"}"#);
    let target = target_with_model("model-a");
    let request = request(&target, None, None);
    let candidates = candidates(&["cluster-0", "cluster-1"]);
    let mut target_state = LoadBalancerTargetState::default();

    let first = choose_candidate(&router, &mut target_state, &request, &candidates)
        .expect("candidate should be selected");
    let second = choose_candidate(&router, &mut target_state, &request, &candidates)
        .expect("candidate should be selected");

    assert_eq!(first.candidate_index, 0);
    assert_eq!(first.rank_depth, 1);
    assert_eq!(candidates[first.candidate_index].cluster_id, "cluster-0");
    assert_eq!(second.candidate_index, 1);
    assert_eq!(candidates[second.candidate_index].cluster_id, "cluster-1");
}

#[test]
fn choose_candidate_with_resolution_preserves_algorithm_metadata() {
    let router = router_from_json(
        r#"{"default":"power-of-n","request_algorithms":{"round-robin":"round-robin"}}"#,
    );
    let target = target_with_model("model-a");
    let request = request(&target, None, None);
    let candidates = candidates(&["cluster-0", "cluster-1"]);
    let mut target_state = LoadBalancerTargetState::default();
    let algorithm_override = LoadBalancerAlgorithmOverride::parse("round_robin")
        .expect("routing algorithm override should parse");
    let resolution = router
        .resolve_algorithm_override(&target.model_id, Some(&algorithm_override))
        .expect("routing method should be available");

    let selection = router
        .choose_candidate_with_algorithm_resolution(
            &mut target_state,
            &request.routed(),
            &snapshots(&request, &candidates),
            &resolution,
            &RoutingHints::none(),
            &measures(&request),
        )
        .expect("candidate should be selected");

    assert_eq!(selection.choice.candidate_index, 0);
    assert_eq!(selection.effective_algorithm, LoadBalancerAlgorithm::RoundRobin);
    assert_eq!(selection.requested_algorithm.as_deref(), Some("round_robin"));
}

#[test]
fn model_request_algorithms_override_top_level_request_algorithms() {
    let router = router_from_json(
        r#"{"default":"power-of-n","request_algorithms":{"round-robin":"round-robin"},"models":{"model-a":{"algorithm":"power-of-n","request_algorithms":{"round-robin":{"algorithm":"round-robin","require_input_tokens":true}}}}}"#,
    );
    let algorithm_override = LoadBalancerAlgorithmOverride::parse("round-robin")
        .expect("routing algorithm override should parse");

    let model_config = router
        .resolve_algorithm_override("model-a", Some(&algorithm_override))
        .expect("model routing method should be available");
    let default_config = router
        .resolve_algorithm_override("model-b", Some(&algorithm_override))
        .expect("default routing method should be available");

    assert!(model_config.config().requires_input_tokens());
    assert!(!default_config.config().requires_input_tokens());
}

#[test]
fn request_algorithm_key_must_match_configured_algorithm() {
    let config =
        parse_json(r#"{"default":"power-of-n","request_algorithms":{"random":"round-robin"}}"#);

    let err = match LoadBalancerRouter::from_config(config, 0) {
        Ok(_) => panic!("mismatched request algorithm should fail"),
        Err(err) => err,
    };
    assert!(
        err.message().contains("request_algorithms key random"),
        "unexpected error: {err:?}"
    );
}

#[test]
fn wait_and_widen_config_resolves_internal_defaults() {
    let mut algorithm_config =
        LoadBalancerAlgorithmConfig::new(LoadBalancerAlgorithm::WaitAndWiden);
    let settings = algorithm_config
        .wait_and_widen_settings_mut()
        .expect("WaitAndWiden config should include wait-and-widen settings");
    settings.cache_affinity_virtual_nodes = Some(0);
    settings.cache_affinity_backend_selection_count = Some(0);
    settings.max_queue_time_floor_ms = Some(100);
    settings.max_queue_time_ceil_ms = Some(300);
    settings.n = Some(0);
    settings.ignore_queue_time = Some(true);
    settings.ignore_input_processing_time = Some(true);
    let config = WaitAndWidenConfig::from_algorithm_config(&algorithm_config);

    assert_eq!(config.cache_affinity_virtual_nodes, 1);
    assert_eq!(config.cache_affinity_backend_selection_count, None);
    assert_eq!(config.ttft_bucket_size_ms, 20);
    assert_eq!(value(config.next_bucket_unlock_factor), 0.25);
    assert_eq!(config.sample_count, 1);
    assert_eq!(config.max_queued, 0);
    assert!(config.ignore_queue_time);
    assert!(config.ignore_input_processing_time);

    let request = request(&target(), None, Some(0));
    let (floor_ms, ceil_ms) = config.queue_slo.expect("floor and ceil should enable queue SLO");
    assert_eq!(max_queue_time_ms(&request, floor_ms, ceil_ms), 300.0);
}

#[test]
fn router_reports_wait_and_widen_algorithm_name() {
    let router = router_with_model(
        LoadBalancerAlgorithm::PowerOfN,
        "model-a",
        LoadBalancerModelConfig::Name(LoadBalancerAlgorithm::WaitAndWiden),
    );
    assert_eq!(router.algorithm_name("model-a"), "wait-and-widen");
}

#[test]
fn default_round_robin_uses_independent_sequences_per_model() {
    assert_independent_round_robin_sequences(
        &router_with_default(LoadBalancerAlgorithm::RoundRobin),
        [target_with_model("model-a"), target_with_model("model-b")],
        [&["model-a-0", "model-a-1"], &["model-b-0", "model-b-1", "model-b-2"]],
        [
            &["model-a-0", "model-a-1", "model-a-0"],
            &["model-b-0", "model-b-1", "model-b-2"],
        ],
    );
}

#[test]
fn default_round_robin_uses_independent_sequences_per_routing_target() {
    assert_independent_round_robin_sequences(
        &router_with_default(LoadBalancerAlgorithm::RoundRobin),
        [
            target_with_routing_key("tenant-a", "shared-model"),
            target_with_routing_key("tenant-b", "shared-model"),
        ],
        [&["cluster-0", "cluster-1"], &["cluster-0", "cluster-1"]],
        [&["cluster-0", "cluster-1"], &["cluster-0", "cluster-1"]],
    );
}

#[test]
fn replacing_target_state_starts_fresh_round_robin_sequence() {
    let router = router_with_default(LoadBalancerAlgorithm::RoundRobin);
    let target = target_with_model("model-a");
    let request = request(&target, None, None);
    let candidates = candidates(&["cluster-0", "cluster-1"]);
    let mut target_state = LoadBalancerTargetState::default();

    let first = choose_from_router(&router, &mut target_state, &request, &candidates);
    let second = choose_from_router(&router, &mut target_state, &request, &candidates);
    let mut replacement_target_state = LoadBalancerTargetState::default();
    let replacement_first =
        choose_from_router(&router, &mut replacement_target_state, &request, &candidates);

    assert_eq!(first.cluster_id, "cluster-0");
    assert_eq!(second.cluster_id, "cluster-1");
    assert_eq!(replacement_first.cluster_id, "cluster-0");
}

#[test]
fn target_state_distinguishes_independent_router_definitions() {
    let first_router = router_with_id(LoadBalancerAlgorithm::RoundRobin, &[], None, 1);
    let second_router = router_with_id(LoadBalancerAlgorithm::RoundRobin, &[], None, 2);
    let target = target_with_model("model-a");
    let request = request(&target, None, None);
    let candidates = candidates(&["cluster-0", "cluster-1"]);
    let mut target_state = LoadBalancerTargetState::default();

    let first_router_first =
        choose_from_router(&first_router, &mut target_state, &request, &candidates);
    let second_router_first =
        choose_from_router(&second_router, &mut target_state, &request, &candidates);
    let first_router_second =
        choose_from_router(&first_router, &mut target_state, &request, &candidates);

    assert_eq!(first_router_first.cluster_id, "cluster-0");
    assert_eq!(second_router_first.cluster_id, "cluster-0");
    assert_eq!(first_router_second.cluster_id, "cluster-1");
}

#[test]
fn configured_round_robin_uses_independent_sequences_per_routing_target() {
    let router = router_with_model(
        LoadBalancerAlgorithm::PowerOfN,
        "shared-model",
        LoadBalancerModelConfig::Name(LoadBalancerAlgorithm::RoundRobin),
    );
    assert_independent_round_robin_sequences(
        &router,
        [
            target_with_routing_key("tenant-a", "shared-model"),
            target_with_routing_key("tenant-b", "shared-model"),
        ],
        [&["cluster-0", "cluster-1"], &["cluster-0", "cluster-1"]],
        [&["cluster-0", "cluster-1"], &["cluster-0", "cluster-1"]],
    );
}

#[test]
fn choose_with_no_candidates_does_not_cache_default_lb_for_target() {
    let router = router_with_default(LoadBalancerAlgorithm::RoundRobin);
    let target = target_with_model("unknown-model");
    let request = request(&target, None, None);
    let mut target_state = LoadBalancerTargetState::default();

    assert!(choose_candidate(&router, &mut target_state, &request, &[]).is_none());
    assert_eq!(target_state.instance_count(), 0);
}

#[test]
fn request_round_robin_override_uses_stable_per_target_sequence() {
    let router = router_with_options(
        LoadBalancerAlgorithm::PowerOfN,
        &[LoadBalancerAlgorithm::RoundRobin],
        None,
    );
    let target = target_with_model("model-a");
    let request = request(&target, None, None);
    let candidates = candidates(&["cluster-0", "cluster-1"]);
    let mut target_state = LoadBalancerTargetState::default();
    let selected = (0..3)
        .map(|_| {
            selected_cluster_id(
                round_robin_override_choice(&router, &mut target_state, &request, &candidates),
                &candidates,
            )
            .to_string()
        })
        .collect::<Vec<_>>();

    assert_eq!(selected, ["cluster-0", "cluster-1", "cluster-0"].map(str::to_string));
    assert_eq!(target_state.instance_count(), 1);
}

#[test]
fn configured_request_override_creates_target_local_balancer() {
    let router = router_with_options(
        LoadBalancerAlgorithm::RoundRobin,
        &[LoadBalancerAlgorithm::PowerOfN],
        None,
    );
    let target = target_with_model("model-a");
    let request = request(&target, None, None);
    let candidates = candidates(&["cluster-0", "cluster-1"]);
    let mut target_state = LoadBalancerTargetState::default();
    let selection =
        choose_with_override(&router, &mut target_state, &request, &candidates, "power-of-n");

    assert_eq!(selection.effective_algorithm, LoadBalancerAlgorithm::PowerOfN);
    assert_eq!(target_state.instance_count(), 1);
}

#[test]
fn matching_round_robin_override_reuses_configured_target_sequence() {
    let router = router_with_default(LoadBalancerAlgorithm::RoundRobin);
    let target = target_with_model("model-a");
    let request = request(&target, None, None);
    let candidates = candidates(&["cluster-0", "cluster-1"]);
    let mut target_state = LoadBalancerTargetState::default();
    let without_header =
        choose_from_router(&router, &mut target_state, &request, &candidates).cluster_id;
    let with_header =
        round_robin_override_choice(&router, &mut target_state, &request, &candidates);
    let without_header_again =
        choose_from_router(&router, &mut target_state, &request, &candidates).cluster_id;

    assert_eq!(without_header, "cluster-0");
    assert_eq!(selected_cluster_id(with_header, &candidates), "cluster-1");
    assert_eq!(without_header_again, "cluster-0");
}

#[test]
fn request_round_robin_override_keeps_routing_targets_isolated() {
    let router = router_with_options(
        LoadBalancerAlgorithm::PowerOfN,
        &[LoadBalancerAlgorithm::RoundRobin],
        None,
    );
    let target_a = target_with_routing_key("rk-a", "shared-model");
    let target_b = target_with_routing_key("rk-b", "shared-model");
    let request_a = request(&target_a, None, None);
    let request_b = request(&target_b, None, None);
    let candidates = candidates(&["cluster-0", "cluster-1"]);
    let mut state_a = LoadBalancerTargetState::default();
    let mut state_b = LoadBalancerTargetState::default();
    let first_a = round_robin_override_choice(&router, &mut state_a, &request_a, &candidates);
    let first_b = round_robin_override_choice(&router, &mut state_b, &request_b, &candidates);
    let second_a = round_robin_override_choice(&router, &mut state_a, &request_a, &candidates);
    let second_b = round_robin_override_choice(&router, &mut state_b, &request_b, &candidates);

    assert_eq!(selected_cluster_id(first_a, &candidates), "cluster-0");
    assert_eq!(selected_cluster_id(first_b, &candidates), "cluster-0");
    assert_eq!(selected_cluster_id(second_a, &candidates), "cluster-1");
    assert_eq!(selected_cluster_id(second_b, &candidates), "cluster-1");
}

#[test]
fn request_override_beats_configured_model_algorithm() {
    let router = router_with_options(
        LoadBalancerAlgorithm::PowerOfN,
        &[LoadBalancerAlgorithm::PowerOfN],
        Some((
            "shared-model",
            LoadBalancerModelConfig::Name(LoadBalancerAlgorithm::RoundRobin),
        )),
    );
    let target = target_with_model("shared-model");
    let request = request(&target, None, None);
    let candidates = candidates(&["cluster-0", "cluster-1"]);
    let mut target_state = LoadBalancerTargetState::default();
    let selection =
        choose_with_override(&router, &mut target_state, &request, &candidates, "power_of_n");

    assert_eq!(selection.effective_algorithm, LoadBalancerAlgorithm::PowerOfN);
}

#[test]
fn matching_request_override_reuses_configured_algorithm_config() {
    let mut round_robin_config =
        LoadBalancerAlgorithmConfig::new(LoadBalancerAlgorithm::RoundRobin);
    round_robin_config.request_policy_mut().require_input_tokens = true;
    let router = router_with_model(
        LoadBalancerAlgorithm::PowerOfN,
        "shared-model",
        LoadBalancerModelConfig::Detailed(Box::new(round_robin_config)),
    );
    let algorithm_override = LoadBalancerAlgorithmOverride::parse("round-robin")
        .expect("routing algorithm override should parse");

    let config = router
        .resolve_algorithm_override("shared-model", Some(&algorithm_override))
        .expect("routing method should be available");

    assert_eq!(config.config().algorithm(), LoadBalancerAlgorithm::RoundRobin);
    assert!(config.config().requires_input_tokens());
}

#[test]
fn matching_model_algorithm_beats_top_level_request_config() {
    let mut pulsar_config = LoadBalancerAlgorithmConfig::new(LoadBalancerAlgorithm::Pulsar);
    pulsar_config.request_policy_mut().require_input_tokens = true;
    let router = router_with_options(
        LoadBalancerAlgorithm::PowerOfN,
        &[LoadBalancerAlgorithm::Pulsar],
        Some(("shared-model", LoadBalancerModelConfig::Detailed(Box::new(pulsar_config)))),
    );
    let algorithm_override = LoadBalancerAlgorithmOverride::parse("pulsar")
        .expect("routing algorithm override should parse");

    let config = router
        .resolve_algorithm_override("shared-model", Some(&algorithm_override))
        .expect("routing algorithm should resolve");

    assert_eq!(config.config().algorithm(), LoadBalancerAlgorithm::Pulsar);
    assert!(config.config().requires_input_tokens());
}

#[test]
fn known_unavailable_request_override_returns_error() {
    let router = router_with_default(LoadBalancerAlgorithm::PowerOfN);
    let target = target_with_model("shared-model");
    let request = request(&target, None, None);
    let candidates = candidates(&["cluster-0", "cluster-1"]);
    let mut target_state = LoadBalancerTargetState::default();
    let algorithm_override = LoadBalancerAlgorithmOverride::parse("pulsar")
        .expect("routing algorithm override should parse");

    let error = try_override(&router, &mut target_state, &request, &candidates, "pulsar")
        .expect_err("unconfigured routing method should fail");
    assert_eq!(
        error,
        LoadBalancerRoutingAlgorithmError::Unavailable {
            raw: "pulsar".to_string(),
            algorithm: LoadBalancerAlgorithm::Pulsar,
        }
    );
    assert!(router
        .resolve_algorithm_override("shared-model", Some(&algorithm_override))
        .is_err());
}

#[test]
fn unknown_request_override_returns_error() {
    assert_eq!(
        LoadBalancerAlgorithmOverride::parse("sticky")
            .expect_err("unknown routing algorithm should fail"),
        LoadBalancerRoutingAlgorithmError::Unknown { raw: "sticky".to_string() }
    );
}

#[test]
fn permissive_default_resolves_every_builtin_algorithm() {
    let router = LoadBalancerRouter::from_config(LoadBalancerConfig::permissive_default(), 0)
        .expect("permissive default config should build");

    for algorithm in LoadBalancerAlgorithm::all() {
        let algorithm_override = LoadBalancerAlgorithmOverride::parse(algorithm.as_str())
            .expect("routing algorithm override should parse");
        let config = router
            .resolve_algorithm_override("any-model", Some(&algorithm_override))
            .expect("every built-in algorithm should resolve");
        assert_eq!(config.config().algorithm(), algorithm);
    }
}

#[test]
fn permissive_default_resolves_alias_and_underscore_spellings() {
    let router = LoadBalancerRouter::from_config(LoadBalancerConfig::permissive_default(), 0)
        .expect("permissive default config should build");
    let spellings = [
        ("power_of_n", LoadBalancerAlgorithm::PowerOfN),
        ("power_of_two", LoadBalancerAlgorithm::PowerOfN),
        ("round_robin", LoadBalancerAlgorithm::RoundRobin),
        ("groq-multiregion", LoadBalancerAlgorithm::WaitAndWiden),
        ("groq_multiregion", LoadBalancerAlgorithm::WaitAndWiden),
        ("pulsar-multiregion", LoadBalancerAlgorithm::PulsarWaitAndWiden),
        ("pulsar_multiregion", LoadBalancerAlgorithm::PulsarWaitAndWiden),
    ];

    for (spelling, expected) in spellings {
        let algorithm_override = LoadBalancerAlgorithmOverride::parse(spelling)
            .expect("routing algorithm override should parse");
        let config = router
            .resolve_algorithm_override("any-model", Some(&algorithm_override))
            .expect("alias spelling should resolve");
        assert_eq!(config.config().algorithm(), expected, "{spelling}");
    }
}

#[test]
fn permissive_default_keeps_power_of_n_without_override() {
    let router = LoadBalancerRouter::from_config(LoadBalancerConfig::permissive_default(), 0)
        .expect("permissive default config should build");

    let config = router
        .resolve_algorithm_override("any-model", None)
        .expect("default algorithm should resolve");
    assert_eq!(config.config().algorithm(), LoadBalancerAlgorithm::PowerOfN);
}

#[test]
fn explicit_config_stays_restrictive() {
    let router = router_from_json(
        r#"{"default":"power-of-n","request_algorithms":{"round-robin":"round-robin"}}"#,
    );
    let algorithm_override = LoadBalancerAlgorithmOverride::parse("pulsar")
        .expect("routing algorithm override should parse");

    let error = match router.resolve_algorithm_override("any-model", Some(&algorithm_override)) {
        Ok(_) => panic!("unlisted routing method should stay unavailable"),
        Err(error) => error,
    };
    assert_eq!(
        error,
        LoadBalancerRoutingAlgorithmError::Unavailable {
            raw: "pulsar".to_string(),
            algorithm: LoadBalancerAlgorithm::Pulsar,
        }
    );
}

#[test]
fn request_excluded_clusters_are_not_selected() {
    let router = router_with_default(LoadBalancerAlgorithm::RoundRobin);
    let target = target_with_model("model-exclusions");
    let request = request(&target, None, None).excluding(&["cluster-0"]);
    let candidates = candidates(&["cluster-0", "cluster-1"]);
    let mut target_state = LoadBalancerTargetState::default();

    let chosen = choose_from_router(&router, &mut target_state, &request, &candidates);

    assert_eq!(chosen.cluster_id, "cluster-1");
}

#[test]
fn power_of_n_uses_each_configured_comparator() {
    let cases = [
        (
            ClusterComparator::EstimatedTtft,
            [
                candidate("preferred", 1024).with_rtt_ms(1),
                candidate("other", 1024).with_rtt_ms(100),
            ],
        ),
        (
            ClusterComparator::QueueTime,
            [
                priority_candidate("preferred", 0, 1).with_rtt_ms(100),
                priority_candidate("other", 0, 50).with_rtt_ms(1),
            ],
        ),
        (
            ClusterComparator::InputWorkSeconds,
            [
                work_candidate("preferred", 100, 1000.0, 100),
                work_candidate("other", 100, 10.0, 100),
            ],
        ),
        (
            ClusterComparator::Utilization,
            [
                concurrency_candidate("preferred", 100, 10, 1),
                concurrency_candidate("other", 1, 10, 9),
            ],
        ),
        (
            ClusterComparator::NumRequestsQueued,
            [
                candidate("preferred", 1024)
                    .with_rtt_ms(100)
                    .with_stats(|stats| stats.queue_size = 1),
                candidate("other", 1024)
                    .with_rtt_ms(1)
                    .with_stats(|stats| stats.queue_size = 10),
            ],
        ),
    ];
    let request = request(&target(), None, Some(100));

    for (comparator, candidates) in cases {
        let mut config = LoadBalancerAlgorithmConfig::new(LoadBalancerAlgorithm::PowerOfN);
        let settings = config
            .power_of_n_settings_mut()
            .expect("power-of-n config should expose settings");
        settings.sample_count = 2;
        settings.comparator = Some(comparator);
        let mut load_balancer =
            create_load_balancer_with_config(config).expect("comparator config should be valid");

        let chosen = load_balancer.choose_one(&request, &candidates);
        assert_eq!(chosen.cluster_id, "preferred", "{comparator:?}");
    }
}

#[test]
fn wait_and_widen_uses_comparator_with_and_without_affinity() {
    let candidates = [
        candidate("lower-ttft-higher-queue", 1024)
            .with_rtt_ms(5)
            .with_stats(|stats| stats.queue_size = 10),
        candidate("higher-ttft-lower-queue", 1024)
            .with_rtt_ms(50)
            .with_stats(|stats| stats.queue_size = 1),
    ];

    for cache_affinity_key in [None, Some("prefix-a")] {
        let mut load_balancer = wait_and_widen_load_balancer(|settings| {
            settings.comparator = Some(ClusterComparator::NumRequestsQueued);
            settings.ttft_bucket_size_ms = Some(100);
            settings.n = Some(2);
            if cache_affinity_key.is_some() {
                settings.seed = Some("seed-1".to_string());
                settings.cache_affinity_virtual_nodes = Some(8);
                settings.cache_affinity_backend_selection_count = Some(2);
            }
        });
        let request = request(&target(), cache_affinity_key, Some(1));

        assert_repeated_choice(
            &mut load_balancer,
            &request,
            &candidates,
            8,
            "higher-ttft-lower-queue",
        );
    }
}

#[test]
fn routing_selection_reports_effective_comparator_and_selected_score() {
    let router =
        router_from_json(r#"{"models":{"model-a":{"algorithm":"power-of-n","sample_count":2}}}"#);
    let target = target();
    let request = request(&target, None, Some(100));
    let candidates = [
        priority_candidate("selected", 0, 20).with_rtt_ms(5),
        priority_candidate("slower", 0, 50).with_rtt_ms(100),
    ];
    let mut target_state = LoadBalancerTargetState::default();
    let resolution = router
        .resolve_algorithm_override(&target.model_id, None)
        .expect("configured algorithm should resolve");

    let selection = router
        .choose_candidate_with_algorithm_resolution(
            &mut target_state,
            &request.routed(),
            &snapshots(&request, &candidates),
            &resolution,
            &RoutingHints::none(),
            &measures(&request),
        )
        .expect("candidate should be selected");
    let comparator = selection
        .comparator
        .expect("power-of-n selection should report its comparator");

    assert_eq!(candidates[selection.choice.candidate_index].cluster_id, "selected");
    assert_eq!(comparator.comparator, ClusterComparator::EstimatedTtft);
    assert_eq!(value(comparator.score), 1025.0);
    assert_eq!(comparator.queue_ms.map(value), Some(20.0));
    assert_eq!(comparator.prefill_ms.map(value), Some(1000.0));
    assert_eq!(comparator.rtt_ms.map(value), Some(5.0));
}

#[test]
fn wait_and_widen_prefers_lower_estimated_ttft() {
    check_wait_and_widen(
        |_| {},
        request(&target(), None, Some(10)),
        &[
            candidate("fast", 1024).with_rtt_ms(5),
            candidate("slow", 1024).with_rtt_ms(50),
        ],
        1,
        "fast",
    );
}

#[test]
fn wait_and_widen_single_excluded_cluster_is_not_selected() {
    let mut lb = wait_and_widen_load_balancer(|_| {});
    let request = request(&target(), None, Some(10)).excluding(&["fast-but-excluded"]);
    let fast = candidate("fast-but-excluded", 1024).with_rtt_ms(5);
    let slow = candidate("slow-but-eligible", 1024).with_rtt_ms(50);

    let chosen = lb.choose_one(&request, &[fast, slow]);
    assert_eq!(chosen.cluster_id, "slow-but-eligible");
}

#[test]
fn wait_and_widen_cache_affinity_key_selects_stable_primary() {
    let mut lb =
        create_load_balancer_with_config(wait_and_widen_affinity_algorithm_config(8, 1, None))
            .expect("factory should accept wait-and-widen");
    let request = request(&target(), Some("prefix-a"), Some(1));
    let candidates = candidates(&["affinity-a", "affinity-b", "affinity-c"]);

    let first = lb.choose_one(&request, &candidates).cluster_id;
    assert_repeated_choice(&mut lb, &request, &candidates, 16, &first);
}

fn append_test_tagged_bytes(bytes: &mut Vec<u8>, tag: &[u8], value: &[u8]) {
    bytes.extend_from_slice(tag);
    bytes.push(0xff);
    bytes.extend_from_slice(&(value.len() as u64).to_le_bytes());
    bytes.extend_from_slice(value);
}

fn wait_and_widen_affinity_config(
    virtual_nodes: usize,
    selection_count: usize,
    sample_count: Option<usize>,
) -> WaitAndWidenConfig {
    WaitAndWidenConfig::from_algorithm_config(&wait_and_widen_affinity_algorithm_config(
        virtual_nodes,
        selection_count,
        sample_count,
    ))
}

#[test]
fn wait_and_widen_cache_affinity_hash_uses_cluster_identity() {
    let config = wait_and_widen_affinity_config(8, 1, None);
    let request = request(&target(), Some("prefix-a"), Some(1));
    let candidate = snapshots(&request, &candidates(&["inst-a"])).remove(0);

    let hash = cache_affinity_virtual_node_hash(&config, &request.routed(), &candidate, 7);

    let mut bytes = Vec::new();
    bytes.push(1);
    append_test_tagged_bytes(&mut bytes, b"seed", b"seed-1");
    append_test_tagged_bytes(&mut bytes, b"routing_key", b"rk-1");
    append_test_tagged_bytes(&mut bytes, b"model_id", b"model-a");
    append_test_tagged_bytes(&mut bytes, b"cluster_id", b"inst-a");
    append_test_tagged_bytes(&mut bytes, b"virtual_node", &7usize.to_le_bytes());

    assert_eq!(hash, xxh3_64(&bytes));
}

#[test]
fn wait_and_widen_cache_affinity_hash_changes_with_routing_key() {
    let config = wait_and_widen_affinity_config(8, 1, None);
    let request_a = request(
        &target_with_routing_key("tenant-a", "shared-model"),
        Some("same-prefix"),
        Some(1),
    );
    let request_b = request(
        &target_with_routing_key("tenant-b", "shared-model"),
        Some("same-prefix"),
        Some(1),
    );
    let candidate = snapshots(&request_a, &candidates(&["inst-a"])).remove(0);

    let hash_a = cache_affinity_virtual_node_hash(&config, &request_a.routed(), &candidate, 7);
    let hash_b = cache_affinity_virtual_node_hash(&config, &request_b.routed(), &candidate, 7);

    assert_ne!(hash_a, hash_b, "routing_key must be part of the affinity hash namespace");
}

#[test]
fn wait_and_widen_cache_affinity_keys_distribute_across_backends() {
    let config = wait_and_widen_affinity_algorithm_config(32, 1, None);
    let mut lb = create_load_balancer_with_config(config)
        .expect("factory should accept wait-and-widen");
    let settings = affinity_settings(32, 1, None);
    let candidates = candidates(&["dist-a", "dist-b", "dist-c"]);
    let mut seen = HashSet::new();

    for idx in 0..128 {
        let key = format!("prefix-{idx}");
        let request = request(&target(), Some(&key), Some(1));
        let selected = affinity(&settings, &request, &candidates)
            .expect("cache affinity should select a backend");
        let primary = candidates[selected[0]].cluster_id.clone();
        assert_eq!(lb.choose_one(&request, &candidates).cluster_id, primary);
        seen.insert(primary);
        if seen.len() >= 2 {
            break;
        }
    }

    assert!(
        seen.len() >= 2,
        "expected different cache-affinity keys to reach multiple primaries, saw {seen:?}"
    );
}

/// Clusters and an affinity key that leads to the first of the excluded ones, and without them to
/// `affinity-successor`.
fn affinity_retry_fixture(excluded_ids: &[&str]) -> (Vec<Cluster>, String) {
    let settings = affinity_settings(32, 1, None);
    let mut clusters: Vec<Cluster> = excluded_ids
        .iter()
        .enumerate()
        .map(|(index, id)| candidate(id, 1024).with_rtt_ms((index as u64 + 1) * 5))
        .collect();
    clusters.extend([
        candidate("affinity-successor", 1024).with_rtt_ms(100),
        candidate("global-fast", 1024).with_rtt_ms(1),
    ]);

    for index in 0..8192 {
        let key = format!("retry-prefix-{index}");
        let request = request(&target(), Some(&key), Some(1));
        let primary = affinity(&settings, &request, &clusters)
            .expect("cache affinity should select a backend");
        if clusters[primary[0]].cluster_id != excluded_ids[0] {
            continue;
        }
        let retry = affinity(&settings, &request.excluding(excluded_ids), &clusters)
            .expect("retry should select an affinity successor");
        if clusters[retry[0]].cluster_id != "affinity-successor" {
            continue;
        }
        return (clusters, key);
    }

    panic!("expected an affinity key with excluded primaries and a distinct successor");
}

fn assert_cache_affinity_retry(excluded_ids: &[&str]) {
    let (clusters, key) = affinity_retry_fixture(excluded_ids);
    let mut lb =
        create_load_balancer_with_config(wait_and_widen_affinity_algorithm_config(32, 1, None))
            .expect("factory should accept wait-and-widen");
    let request = request(&target(), Some(&key), Some(1));
    let first = lb.choose_one(&request, &clusters);
    assert_eq!(first.cluster_id, excluded_ids[0]);
    let retry = request.excluding(excluded_ids);
    let chosen = lb.choose_one(&retry, &clusters);
    assert_eq!(chosen.cluster_id, "affinity-successor");
    let chosen_again = lb.choose_one(&retry, &clusters);
    assert_eq!(chosen_again.cluster_id, "affinity-successor");
}

#[test]
fn wait_and_widen_cache_affinity_retry_skips_excluded_primary() {
    assert_cache_affinity_retry(&["excluded-primary"]);
}

#[test]
fn wait_and_widen_cache_affinity_retry_returns_candidate_slice_indices() {
    let (clusters, key) = affinity_retry_fixture(&["excluded-primary"]);
    let config = wait_and_widen_affinity_algorithm_config(32, 1, None);
    let settings = affinity_settings(32, 1, None);
    let request = request(&target(), Some(&key), Some(1));
    let primary =
        affinity(&settings, &request, &clusters).expect("cache affinity should select a backend");
    assert_eq!(clusters[primary[0]].cluster_id, "excluded-primary");
    let retry = request.excluding(&["excluded-primary"]);
    assert_eq!(affinity(&settings, &retry, &clusters), Some(vec![1]));
    let lb = WaitAndWidenLoadBalancer { config: WaitAndWidenConfig::from_algorithm_config(&config) };
    let choice = lb
        .choose_candidate(
            &retry.routed(),
            &snapshots(&retry, &clusters),
            &affinity(&settings, &retry, &clusters),
            &measures(&retry),
        )
        .expect("candidate should be selected");
    assert_eq!(choice.candidate_index, 1);
}

#[test]
fn wait_and_widen_cache_affinity_retry_skips_multiple_excluded_primaries() {
    assert_cache_affinity_retry(&["excluded-a", "excluded-b"]);
}

#[test]
fn wait_and_widen_affinity_cache_invalidates_when_candidates_change() {
    let settings = affinity_settings(8, 1, None);
    let mut lb =
        create_load_balancer_with_config(wait_and_widen_affinity_algorithm_config(8, 1, None))
            .expect("factory should accept wait-and-widen");
    let first_candidates = candidates(&["old-a", "old-b", "old-c"]);

    for idx in 0..512 {
        let key = format!("prefix-{idx}");
        let request = request(&target(), Some(&key), Some(1));
        let selected = affinity(&settings, &request, &first_candidates)
            .expect("cache affinity should select a backend");
        if first_candidates[selected[0]].cluster_id == "old-a" {
            continue;
        }

        lb.choose_one(&request, &first_candidates);
        let replacement = candidates(&["replacement"]);
        let chosen = lb.choose_one(&request, &replacement);
        assert_eq!(chosen.cluster_id, "replacement");
        return;
    }

    panic!("expected to find an affinity key that selects a non-zero candidate index");
}

#[test]
fn wait_and_widen_cache_affinity_falls_back_when_primary_is_full() {
    let mut lb =
        create_load_balancer_with_config(wait_and_widen_affinity_algorithm_config(1, 1, Some(3)))
            .expect("factory should accept wait-and-widen");
    let request = request(&target(), Some("prefix-a"), Some(1));
    let mut candidates = candidates(&["fallback-a", "fallback-b", "fallback-c"]);
    let primary_settings = affinity_settings(1, 1, None);
    let primary_index = affinity(&primary_settings, &request, &candidates)
        .expect("cache affinity should select a primary")[0];
    let primary = candidates[primary_index].cluster_id.clone();
    for candidate in &mut candidates {
        if candidate.cluster_id == primary {
            candidate.stats.max_engine_concurrency = 1;
            candidate.stats.num_running_queries = 1;
        }
    }

    let chosen = lb.choose_one(&request, &candidates);
    assert_ne!(chosen.cluster_id, primary);
}

#[test]
fn wait_and_widen_two_affinity_candidates_still_filter_capacity() {
    let settings = affinity_settings(8, 2, Some(2));
    let mut lb =
        create_load_balancer_with_config(wait_and_widen_affinity_algorithm_config(8, 2, Some(2)))
            .expect("factory should accept wait-and-widen");
    let request = request(&target(), Some("prefix-a"), Some(1));
    let mut candidates = candidates(&["two-affinity-a", "two-affinity-b", "two-affinity-c"]);
    let selected = affinity(&settings, &request, &candidates)
        .expect("cache affinity should select candidates");
    assert_eq!(selected.len(), 2);
    let full_primary_id = candidates[selected[0]].cluster_id.clone();
    let available_selected_id = candidates[selected[1]].cluster_id.clone();
    for candidate in &mut candidates {
        if candidate.cluster_id == full_primary_id {
            candidate.stats.max_engine_concurrency = 1;
            candidate.stats.num_running_queries = 1;
        }
    }

    let chosen = lb.choose_one(&request, &candidates);

    assert_eq!(chosen.cluster_id, available_selected_id);
}

#[test]
fn wait_and_widen_cache_affinity_is_skipped_without_header() {
    let mut lb =
        create_load_balancer_with_config(wait_and_widen_affinity_algorithm_config(1, 1, Some(3)))
            .expect("factory should accept wait-and-widen");
    let request = request(&target(), None, Some(1));
    let candidates = [
        candidate("affinity-primary", 1024).with_rtt_ms(50),
        candidate("fastest-without-affinity", 1024).with_rtt_ms(5),
    ];
    assert_repeated_choice(&mut lb, &request, &candidates, 16, "fastest-without-affinity");
}

#[test]
fn wait_and_widen_uses_input_tokens_in_ttft_estimate() {
    check_wait_and_widen(
        |_| {},
        request(&target(), None, Some(100)),
        &[
            work_candidate("higher-rtt-higher-cap", 10, 200.0, 0),
            work_candidate("lower-rtt-lower-cap", 1, 10.0, 0),
        ],
        1,
        "higher-rtt-higher-cap",
    );
}

#[test]
fn wait_and_widen_can_ignore_input_processing_time_in_ttft_estimate() {
    check_wait_and_widen(
        |settings| settings.ignore_input_processing_time = Some(true),
        request(&target(), None, Some(100)),
        &[
            work_candidate("lower-rtt-lower-cap", 1, 10.0, 0),
            work_candidate("higher-rtt-higher-cap", 50, 200.0, 0),
        ],
        1,
        "lower-rtt-lower-cap",
    );
}

#[test]
fn wait_and_widen_limits_selection_to_first_ttft_bucket() {
    let mut lb = wait_and_widen_load_balancer(|_| {});
    let request = request(&target(), None, Some(1));
    let candidates = [
        work_candidate("bucket-a", 5, 10.0, 0),
        work_candidate("bucket-b", 20, 10.0, 0),
        work_candidate("second-bucket", 50, 10.0, 0),
    ];

    for _ in 0..32 {
        let chosen = lb.choose_one(&request, &candidates);
        assert_ne!(chosen.cluster_id, "second-bucket");
    }
}

#[test]
fn wait_and_widen_can_ignore_queue_time_in_ttft_estimate() {
    check_wait_and_widen(
        |settings| settings.ignore_queue_time = Some(true),
        request(&target(), None, Some(0)),
        &[
            work_candidate("lower-rtt-higher-queue", 5, 100.0, 100),
            work_candidate("higher-rtt-lower-queue", 50, 100.0, 0),
        ],
        1,
        "lower-rtt-higher-queue",
    );
}

#[test]
fn wait_and_widen_ignore_queue_still_compares_sampled_candidates_by_queue_time() {
    check_wait_and_widen(
        |settings| {
            settings.n = Some(2);
            settings.ignore_queue_time = Some(true);
        },
        request(&target(), None, Some(512)),
        &[
            work_candidate("higher-queue", 5, 100.0, 2),
            work_candidate("lower-queue", 5, 100.0, 1),
        ],
        16,
        "lower-queue",
    );
}

#[test]
fn wait_and_widen_ignore_queue_keeps_later_prefill_buckets_locked() {
    check_wait_and_widen(
        |settings| {
            settings.n = Some(2);
            settings.ignore_queue_time = Some(true);
        },
        request(&target(), None, Some(512)),
        &[
            work_candidate("first-bucket", 5, 10_000.0, 0),
            work_candidate("later-bucket", 50, 10_000.0, 0),
        ],
        16,
        "first-bucket",
    );
}

#[test]
fn wait_and_widen_ignore_queue_skips_single_excluded_backend() {
    assert_excluded_queue_choice(false, &["excluded"]);
}

#[test]
fn wait_and_widen_ignore_queue_skips_multiple_excluded_backends() {
    assert_excluded_queue_choice(false, &["excluded-a", "excluded-b"]);
}

#[test]
fn wait_and_widen_deprioritizes_non_finite_ttft_candidates() {
    check_wait_and_widen(
        |_| {},
        request(&target(), None, Some(10)),
        &[candidate("finite", 1024), work_candidate("non-finite", 1, 0.0, 5)],
        1,
        "finite",
    );
}

#[test]
fn wait_and_widen_uses_last_mean_input_tps_for_prefill_estimates() {
    check_wait_and_widen(
        |_| {},
        request(&target(), None, Some(100)),
        &[
            work_candidate("high-capacity", 10, 200.0, 0),
            work_candidate("low-capacity", 1, 10.0, 0),
        ],
        1,
        "high-capacity",
    );
}

#[test]
fn wait_and_widen_unlocks_later_ttft_bucket_after_waiting() {
    let mut lb = wait_and_widen_load_balancer(|settings| {
        settings.n = Some(1);
    });
    let mut request = request(&target(), None, Some(1));
    request.waited = Duration::from_millis(20);
    let fast_full = concurrency_candidate("fast-full", 20, 1, 1);
    let slower_available = concurrency_candidate("slower-available", 60, 1, 0);

    let chosen = lb.choose_one(&request, &[fast_full, slower_available]);
    assert_eq!(chosen.cluster_id, "slower-available");
}

#[test]
fn wait_and_widen_filters_full_backends() {
    check_wait_and_widen(
        |_| {},
        request(&target(), None, Some(1)),
        &[
            concurrency_candidate("full", 5, 1, 1),
            concurrency_candidate("available", 6, 1, 0),
        ],
        1,
        "available",
    );
}

#[test]
fn wait_and_widen_filters_backends_over_queue_slo() {
    check_wait_and_widen(
        |settings| {
            settings.max_queue_time_floor_ms = Some(5);
            settings.max_queue_time_ceil_ms = Some(5);
            settings.n = Some(2);
        },
        request(&target(), None, Some(0)),
        &[
            work_candidate("over-slo", 5, 100.0, 1),
            work_candidate("under-slo", 5, 100.0, 0),
        ],
        1,
        "under-slo",
    );
}

#[test]
fn wait_and_widen_filters_queue_slo_before_ttft_bucket_locking() {
    check_wait_and_widen(
        |settings| {
            settings.max_queue_time_floor_ms = Some(5);
            settings.max_queue_time_ceil_ms = Some(5);
            settings.n = Some(2);
        },
        request(&target(), None, Some(0)),
        &[
            work_candidate("over-slo-first-bucket", 1, 100.0, 1),
            work_candidate("under-slo-later-bucket", 40, 100.0, 0),
        ],
        1,
        "under-slo-later-bucket",
    );
}

#[test]
fn wait_and_widen_queue_slo_still_applies_when_queue_time_is_ignored_for_ttft() {
    check_wait_and_widen(
        |settings| {
            settings.ignore_queue_time = Some(true);
            settings.max_queue_time_floor_ms = Some(5);
            settings.max_queue_time_ceil_ms = Some(5);
            settings.n = Some(2);
        },
        request(&target(), None, Some(0)),
        &[
            work_candidate("over-slo-lower-rtt", 5, 100.0, 1),
            work_candidate("under-slo-higher-rtt", 6, 100.0, 0),
        ],
        1,
        "under-slo-higher-rtt",
    );
}

#[test]
fn wait_and_widen_returns_none_when_only_candidate_exceeds_queue_slo() {
    let mut lb = wait_and_widen_load_balancer(|settings| {
        settings.max_queue_time_floor_ms = Some(5);
        settings.max_queue_time_ceil_ms = Some(5);
    });
    let request = request(&target(), None, Some(0));
    let over_slo = candidate("over-slo", 1024).with_stats(|stats| stats.queued_input_size = 1);

    let choice = lb.choose_for_test(&request, &[over_slo]);
    assert!(choice.is_none());
}

#[test]
fn wait_and_widen_compares_by_queue_time_within_unlocked_bucket() {
    check_wait_and_widen(
        |settings| settings.n = Some(2),
        request(&target(), None, Some(1)),
        &[
            work_candidate("higher-queue", 5, 100.0, 2),
            work_candidate("lower-queue", 5, 100.0, 1),
        ],
        16,
        "lower-queue",
    );
}

#[test]
fn wait_and_widen_rtt_only_still_compares_sampled_candidates_by_queue_time() {
    check_wait_and_widen(
        |settings| {
            settings.n = Some(2);
            settings.ignore_queue_time = Some(true);
            settings.ignore_input_processing_time = Some(true);
        },
        request(&target(), None, Some(512)),
        &[
            work_candidate("higher-queue", 5, 100.0, 2),
            work_candidate("lower-queue", 5, 100.0, 1),
        ],
        16,
        "lower-queue",
    );
}

#[test]
fn wait_and_widen_rtt_only_filters_full_backends_before_sampling() {
    check_wait_and_widen(
        |settings| {
            settings.n = Some(2);
            settings.ignore_queue_time = Some(true);
            settings.ignore_input_processing_time = Some(true);
        },
        request(&target(), None, Some(512)),
        &[
            concurrency_candidate("full", 5, 1, 1),
            concurrency_candidate("available", 5, 1, 0),
        ],
        1,
        "available",
    );
}

#[test]
fn wait_and_widen_rtt_only_keeps_later_rtt_buckets_locked() {
    check_wait_and_widen(
        |settings| {
            settings.n = Some(2);
            settings.ignore_queue_time = Some(true);
            settings.ignore_input_processing_time = Some(true);
        },
        request(&target(), None, Some(512)),
        &[
            candidate("first-bucket", 1024).with_rtt_ms(5),
            candidate("later-bucket", 1024).with_rtt_ms(50),
        ],
        16,
        "first-bucket",
    );
}

#[test]
fn wait_and_widen_rtt_only_skips_single_excluded_backend() {
    assert_excluded_queue_choice(true, &["excluded"]);
}

#[test]
fn wait_and_widen_rtt_only_skips_multiple_excluded_backends() {
    assert_excluded_queue_choice(true, &["excluded-a", "excluded-b"]);
}

#[test]
fn wait_and_widen_uses_priority_queue_time_estimate() {
    check_wait_and_widen(
        |settings| settings.n = Some(2),
        request_with_priority(&target(), None, Some(0), 4),
        &[
            priority_candidate("aggregate-lower-priority-higher", 4, 50),
            priority_candidate("aggregate-higher-priority-lower", 4, 5)
                .with_stats(|stats| stats.queued_input_size = 100),
        ],
        16,
        "aggregate-higher-priority-lower",
    );
}

#[test]
fn wait_and_widen_ttft_estimator_uses_priority_queue_and_ignore_flags() {
    let mut candidate = work_candidate("estimated", 7, 100.0, 999);
    candidate.stats.queue_time_estimate_ms_by_priority = HashMap::from([(4, 25)]);
    let request = request_with_priority(&target(), None, Some(200), 4);
    let snapshot = snapshots(&request, &[candidate]).remove(0);
    let bucket_ttft = |ignore_queue_time: bool, ignore_input_processing_time: bool| {
        let config = wait_and_widen_algorithm_config(|settings| {
            settings.ignore_queue_time = Some(ignore_queue_time);
            settings.ignore_input_processing_time = Some(ignore_input_processing_time);
        });
        let resolved = WaitAndWidenConfig::from_algorithm_config(&config);
        value(resolved.bucket_ttft(&snapshot))
    };

    assert_eq!(value(snapshot.scores.queue_ms), 25.0);
    assert_eq!(bucket_ttft(false, false), 2032.0);
    assert_eq!(bucket_ttft(true, false), 2007.0);
    assert_eq!(bucket_ttft(false, true), 32.0);
}

#[test]
fn wait_and_widen_clamps_priority_to_max_known_queue_time_priority() {
    check_wait_and_widen(
        |settings| settings.n = Some(2),
        request_with_priority(&target(), None, Some(0), 10),
        &[
            priority_candidate("lower-clamped-queue", 2, 5),
            priority_candidate("higher-clamped-queue", 2, 50),
        ],
        16,
        "lower-clamped-queue",
    );
}

#[test]
fn wait_and_widen_uses_next_highest_priority_queue_time_estimate() {
    check_wait_and_widen(
        |settings| settings.n = Some(2),
        request_with_priority(&target(), None, Some(0), 3),
        &[
            priority_candidate("higher-queue", 2, 50),
            priority_candidate("lower-queue", 2, 5),
        ],
        16,
        "lower-queue",
    );
}

#[test]
fn wait_and_widen_treats_lower_priority_only_queue_as_zero_for_higher_priority_request() {
    check_wait_and_widen(
        |settings| settings.n = Some(2),
        request_with_priority(&target(), None, Some(0), 0),
        &[
            priority_candidate("sparse-lower-priority-only", 4, 0)
                .with_stats(|stats| stats.queued_input_size = 100),
            candidate("aggregate-lower-queue", 1024)
                .with_stats(|stats| stats.queued_input_size = 1),
        ],
        16,
        "sparse-lower-priority-only",
    );
}

#[test]
fn pulsar_different_affinity_keys_reach_multiple_backends() {
    let mut pulsar = pulsar(seeded_pulsar_algorithm_config("seed-1"));
    let candidates = candidates(&["inst-a", "inst-b", "inst-c"]);

    let mut seen = HashSet::new();
    for idx in 0..128 {
        let key = format!("affinity-{idx}");
        let choice = pulsar.choose_one(&request(&target(), Some(&key), Some(128)), &candidates);
        seen.insert(choice.cluster_id);
        if seen.len() >= 2 {
            break;
        }
    }

    assert!(
        seen.len() >= 2,
        "expected at least two different backends across affinity keys, saw {seen:?}"
    );
}

#[test]
fn pulsar_ranking_cache_invalidates_when_capacity_weight_changes() {
    let mut pulsar = pulsar(seeded_pulsar_algorithm_config("seed-1"));

    for idx in 0..1024 {
        let key = format!("affinity-{idx}");
        let request = request(&target(), Some(&key), Some(128));
        let initial = vec![
            work_candidate("inst-a", 5, 10_000.0, 0),
            work_candidate("inst-b", 5, 1.0, 0),
        ];
        let changed = vec![
            work_candidate("inst-a", 5, 1.0, 0),
            work_candidate("inst-b", 5, 10_000.0, 0),
        ];

        let first = pulsar.choose_one(&request, &initial).cluster_id;
        let second = pulsar.choose_one(&request, &changed).cluster_id;
        if first != second {
            assert_eq!(first, "inst-a");
            assert_eq!(second, "inst-b");
            return;
        }
    }

    panic!("expected to find an affinity key whose ranking changes after capacity changes");
}

#[test]
fn pulsar_hash_is_pinned_to_a_fixed_algorithm_and_version() {
    let hash = pulsar_hash64(
        Some("seed-1"),
        &Some("rk-1".to_string()),
        "model-a",
        Some("prefix-123"),
        "inst-a",
    );

    assert_eq!(hash, 0x1944_3c44_ec9f_8abf);
}

#[test]
fn hashes_are_taken_of_tagged_values() {
    let bytes = pulsar_hash_input(None, &None, "m", Some("k"), "c");
    let mut expected = vec![1];
    append_test_tagged_bytes(&mut expected, b"seed", b"");
    append_test_tagged_bytes(&mut expected, b"routing_key", b"");
    append_test_tagged_bytes(&mut expected, b"model_id", b"m");
    append_test_tagged_bytes(&mut expected, b"cache_affinity_key", b"k");
    append_test_tagged_bytes(&mut expected, b"cluster_id", b"c");
    assert_eq!(bytes, expected);
    assert_eq!(pulsar_hash64(None, &None, "m", Some("k"), "c"), xxh3_64(&expected));
    assert_ne!(bytes, pulsar_hash_input(None, &None, "mk", Some(""), "c"));

    let config = WaitAndWidenConfig::from_algorithm_config(&wait_and_widen_algorithm_config(|_| {}));
    let request = request(&target(), None, None);
    let cluster = snapshots(&request, &candidates(&["inst-a"])).remove(0);
    let first = virtual_node_hash_input(&config, &request.routed(), &cluster, 1);
    let second = virtual_node_hash_input(&config, &request.routed(), &cluster, 256);
    assert_eq!(first.len(), second.len());
    assert_eq!(first[first.len() - 8..], [1, 0, 0, 0, 0, 0, 0, 0]);
    assert_eq!(second[second.len() - 8..], [0, 1, 0, 0, 0, 0, 0, 0]);
}

#[test]
fn pulsar_keeps_ranked_primary_despite_low_free_kv() {
    let mut pulsar = pulsar(seeded_pulsar_algorithm_config("seed-1"));

    for idx in 0..512 {
        let key = format!("affinity-{idx}");
        let request = request(&target(), Some(&key), Some(128));
        let feasible_candidates = candidates(&["inst-a", "inst-b"]);
        let baseline = pulsar.choose_one(&request, &feasible_candidates);
        if baseline.cluster_id != "inst-a" {
            continue;
        }

        let constrained_candidates = vec![candidate("inst-a", 64), candidate("inst-b", 1024)];
        let constrained = pulsar.choose_one(&request, &constrained_candidates);
        assert_eq!(constrained.cluster_id, "inst-a");
        assert_eq!(constrained.rank_depth, 1);
        return;
    }

    panic!("expected to find an affinity key that ranks inst-a first");
}

#[test]
fn pulsar_considering_kv_free_tokens_skips_ranked_primary_and_missing_metrics() {
    let mut pulsar = pulsar(kv_aware_pulsar_algorithm_config("seed-1"));
    let request = request(&target(), Some("kv-aware-prefix"), Some(128));
    let full = vec![candidate("inst-a", 1024), candidate("inst-b", 1024)];
    let ranking = ranking("seed-1", &request, &full);
    let primary_index = ranking[0];
    let fallback_index = ranking[1];

    let mut low_free = full.clone();
    low_free[primary_index] = candidate(&low_free[primary_index].cluster_id, 64);
    let low_free_choice = pulsar.choose_one(&request, &low_free);
    assert_eq!(low_free_choice.cluster_id, full[fallback_index].cluster_id);
    assert_eq!(low_free_choice.rank_depth, 2);
    assert!(low_free_choice.selected_after_kv_free_tokens_skip);

    let mut missing_metrics = full;
    missing_metrics[primary_index].stats.kv_cache_capacity_tokens = 0;
    missing_metrics[primary_index].stats.kv_cache_used_tokens = 0;
    missing_metrics[primary_index].stats.kv_cache_free_tokens = 0;
    let missing_metrics_choice = pulsar.choose_one(&request, &missing_metrics);
    assert_eq!(missing_metrics_choice.cluster_id, missing_metrics[fallback_index].cluster_id);
    assert!(missing_metrics_choice.selected_after_kv_free_tokens_skip);
}

#[test]
fn pulsar_cached_ranking_rechecks_live_kv_free_tokens() {
    let mut pulsar = pulsar(kv_aware_pulsar_algorithm_config("seed-1"));
    let request = request(&target(), Some("cached-kv-prefix"), Some(128));
    let candidates = candidates(&["inst-a", "inst-b"]);
    let primary = pulsar.choose_one(&request, &candidates);

    let mut changed = candidates;
    let primary_candidate = changed
        .iter_mut()
        .find(|candidate| candidate.cluster_id == primary.cluster_id)
        .expect("selected primary should be in candidate list");
    primary_candidate.stats.kv_cache_used_tokens = 960;
    primary_candidate.stats.kv_cache_free_tokens = 64;

    let fallback = pulsar.choose_one(&request, &changed);
    assert_ne!(fallback.cluster_id, primary.cluster_id);
    assert!(fallback.selected_after_kv_free_tokens_skip);
}

#[test]
fn pulsar_cached_retry_skips_single_excluded_primary() {
    let mut pulsar = pulsar(seeded_pulsar_algorithm_config("seed-1"));
    let candidates = candidates(&["retry-primary", "retry-fallback", "retry-second-fallback"]);
    let base_request = request(&target(), Some("retry-prefix"), Some(128));
    let primary = pulsar.choose_one(&base_request, &candidates).cluster_id;
    let retry_request = base_request.excluding(&[primary.as_str()]);

    let retry = pulsar.choose_one(&retry_request, &candidates);

    assert_ne!(retry.cluster_id, primary);
    assert!(retry.rank_depth > 1);
}

#[test]
fn pulsar_returns_none_when_all_candidates_are_excluded() {
    let mut pulsar = pulsar(seeded_pulsar_algorithm_config("seed-1"));
    let candidates = candidates(&["all-excluded-a", "all-excluded-b"]);
    let request = request(&target(), Some("retry-prefix"), Some(128))
        .excluding(&["all-excluded-a", "all-excluded-b"]);

    assert!(pulsar.choose_for_test(&request, &candidates).is_none());
}

#[test]
fn pulsar_excludes_candidate_with_invalid_last_mean_input_tps() {
    let mut pulsar = pulsar(seeded_pulsar_algorithm_config("seed-1"));
    let invalid = work_candidate("inst-a", 5, 0.0, 0);
    let valid = candidate("inst-b", 1024);

    let choice =
        pulsar.choose_one(&request(&target(), Some("prefix-1"), Some(128)), &[invalid, valid]);
    assert_eq!(choice.cluster_id, "inst-b");
}

#[test]
fn pulsar_returns_none_when_all_candidates_lack_valid_last_mean_input_tps() {
    let mut pulsar = pulsar(seeded_pulsar_algorithm_config("seed-1"));
    let invalid_a = work_candidate("inst-a", 5, 0.0, 0);
    let invalid_b = work_candidate("inst-b", 5, f64::NAN, 0);

    let choice = pulsar.choose_for_test(
        &request(&target(), Some("prefix-1"), Some(128)),
        &[invalid_a, invalid_b],
    );
    assert!(choice.is_none());
}

fn pool_candidate(id: &str, last_mean_input_tps: f64, queued_input_size: u64) -> Cluster {
    Cluster {
        cluster_id: id.to_string(),
        stats: Stats { last_mean_input_tps, queued_input_size, ..Stats::default() },
        rtt: Duration::from_millis(1),
    }
}

fn pool_request(excluded: &[&str]) -> Request {
    let target = RoutingTargetKey { routing_key: None, model_id: "model-a".to_string() };
    request(&target, None, Some(1000)).excluding(excluded)
}

fn pool_choice(sample_count: usize, candidates: &[Cluster], excluded: &[&str]) -> Option<String> {
    let request = pool_request(excluded);
    PowerOfNLoadBalancer { sample_count, comparator: ClusterComparator::default() }
        .choose_candidate(&request.routed(), &snapshots(&request, candidates))
        .map(|choice| candidates[choice.candidate_index].cluster_id.clone())
}

fn sampled_indices(
    sample_count: usize,
    candidates: &[Cluster],
    excluded: &[&str],
    rng: &mut StdRng,
) -> Vec<usize> {
    let request = pool_request(excluded);
    sample_candidates(&request.routed(), &snapshots(&request, candidates), sample_count, rng)
        .as_slice()
        .to_vec()
}

#[test]
fn power_of_n_never_selects_excluded_clusters() {
    let candidates = vec![
        pool_candidate("excluded-a", 1_000.0, 0),
        pool_candidate("eligible", 1.0, 0),
        pool_candidate("excluded-b", 1_000.0, 0),
    ];

    for _ in 0..64 {
        assert_eq!(
            pool_choice(2, &candidates, &["excluded-a", "excluded-b"]).as_deref(),
            Some("eligible")
        );
    }
}

#[test]
fn power_of_n_skips_single_excluded_cluster_in_retry_set() {
    let candidates = (0..64)
        .map(|index| pool_candidate(&format!("cluster-{index:04}"), 1_000.0, 0))
        .collect::<Vec<_>>();

    for _ in 0..512 {
        let selected = pool_choice(2, &candidates, &["cluster-0000"])
            .expect("an eligible cluster should be selected");
        assert_ne!(selected, "cluster-0000");
    }
}

#[test]
fn power_of_n_returns_none_when_all_candidates_are_excluded() {
    let candidates = vec![
        pool_candidate("excluded-a", 1_000.0, 0),
        pool_candidate("excluded-b", 1_000.0, 0),
    ];

    assert!(pool_choice(2, &candidates, &["excluded-a", "excluded-b"]).is_none());
}

#[test]
fn sampling_handles_empty_singleton_and_oversized_pools() {
    let one = vec![pool_candidate("only", 1.0, 0)];
    let three = vec![
        pool_candidate("a", 1.0, 0),
        pool_candidate("b", 1.0, 0),
        pool_candidate("c", 1.0, 0),
    ];
    let mut rng = StdRng::seed_from_u64(7);

    assert!(sampled_indices(4, &[], &[], &mut rng).is_empty());
    assert_eq!(sampled_indices(4, &one, &[], &mut rng), [0]);
    assert_eq!(sampled_indices(3, &three, &[], &mut rng), [0, 1, 2]);
    assert_eq!(sampled_indices(8, &three, &[], &mut rng), [0, 1, 2]);
}

#[test]
fn sampling_is_distinct_and_reproducible_for_counts_one_two_and_four() {
    let candidates = (0..8)
        .map(|index| pool_candidate(&format!("cluster-{index}"), 1.0, 0))
        .collect::<Vec<_>>();

    for sample_count in [1, 2, 4] {
        let mut first_rng = StdRng::seed_from_u64(42);
        let mut second_rng = StdRng::seed_from_u64(42);
        let first = sampled_indices(sample_count, &candidates, &[], &mut first_rng);
        let second = sampled_indices(sample_count, &candidates, &[], &mut second_rng);
        let distinct = first.iter().copied().collect::<HashSet<_>>();

        assert_eq!(first, second);
        assert_eq!(first.len(), sample_count);
        assert_eq!(distinct.len(), sample_count);
    }
}

#[test]
fn sampling_applies_sparse_and_dense_exclusions_before_sampling() {
    let candidates = (0..8)
        .map(|index| pool_candidate(&format!("cluster-{index}"), 1.0, 0))
        .collect::<Vec<_>>();

    for excluded in [
        vec!["cluster-0"],
        vec!["cluster-0", "cluster-1", "cluster-2", "cluster-3", "cluster-4", "cluster-5"],
    ] {
        let mut rng = StdRng::seed_from_u64(91);
        let sampled = sampled_indices(4, &candidates, &excluded, &mut rng);
        let expected_count = 4.min(candidates.len() - excluded.len());

        assert_eq!(sampled.len(), expected_count);
        assert!(sampled
            .iter()
            .all(|index| !excluded.contains(&candidates[*index].cluster_id.as_str())));
        assert_eq!(sampled.iter().copied().collect::<HashSet<_>>().len(), expected_count);
    }
}

#[test]
fn sampling_is_uniform_without_replacement() {
    let candidates = (0..4)
        .map(|index| pool_candidate(&format!("cluster-{index}"), 1.0, 0))
        .collect::<Vec<_>>();
    let mut rng = StdRng::seed_from_u64(73);
    let mut inclusion_counts = [0usize; 4];
    let iterations: usize = 20_000;

    for _ in 0..iterations {
        for index in sampled_indices(2, &candidates, &[], &mut rng) {
            inclusion_counts[index] += 1;
        }
    }

    let expected = iterations / 2;
    let tolerance = expected / 25;
    for count in inclusion_counts {
        assert!(count.abs_diff(expected) <= tolerance, "count={count}");
    }
}

#[test]
fn full_pool_selection_chooses_the_lowest_score() {
    let candidates = vec![
        pool_candidate("slow", 100.0, 1000),
        pool_candidate("best", 1000.0, 0),
        pool_candidate("busy", 1000.0, 10_000),
    ];

    assert_eq!(pool_choice(3, &candidates, &[]).as_deref(), Some("best"));
}

#[test]
fn equal_scores_do_not_bias_ties_to_one_candidate() {
    let candidates = vec![
        pool_candidate("a", 100.0, 0),
        pool_candidate("b", 100.0, 0),
        pool_candidate("c", 100.0, 0),
    ];
    let request = pool_request(&[]);
    let load_balancer =
        PowerOfNLoadBalancer { sample_count: 3, comparator: ClusterComparator::default() };
    let mut rng = StdRng::seed_from_u64(11);
    let mut selected = HashSet::new();

    for _ in 0..64 {
        selected.insert(
            load_balancer
                .choose_candidate_with_rng(
                    &request.routed(),
                    &snapshots(&request, &candidates),
                    &mut rng,
                )
                .expect("equal-score pool should produce a candidate")
                .candidate_index,
        );
    }

    assert_eq!(selected, HashSet::from([0, 1, 2]));
}

#[test]
fn sampled_pairs_are_distinct_and_reach_every_pair() {
    let mut rng = StdRng::seed_from_u64(5);
    let mut pairs = HashSet::new();
    for _ in 0..256 {
        let (first, second) = sample_distinct_pair(3, &mut rng);
        assert_ne!(first, second);
        pairs.insert((first, second));
    }
    assert_eq!(pairs.len(), 6);
}

#[test]
fn least_loaded_takes_only_sampled_candidates() {
    let request = pool_request(&[]);
    let candidates = snapshots(
        &request,
        &[
            pool_candidate("best", 1000.0, 0),
            pool_candidate("slow", 100.0, 1000),
            pool_candidate("slower", 10.0, 1000),
        ],
    );
    let mut rng = StdRng::seed_from_u64(1);
    let choice =
        choose_least_loaded(&candidates, &[2, 1], ClusterComparator::EstimatedTtft, &mut rng);
    assert_eq!(choice.map(|choice| choice.candidate_index), Some(1));
    assert!(
        choose_least_loaded(&candidates, &[], ClusterComparator::EstimatedTtft, &mut rng).is_none()
    );
}

#[test]
fn draws_decide_between_equally_loaded_candidates() {
    let request = pool_request(&[]);
    let candidates = snapshots(
        &request,
        &[
            pool_candidate("first", 100.0, 1000),
            pool_candidate("second", 100.0, 1000),
            pool_candidate("slow", 10.0, 1000),
            pool_candidate("third", 100.0, 1000),
        ],
    );
    let winner = |sampled: &[usize], draws: Vec<bool>| {
        least_loaded_with_draws(&candidates, sampled, ClusterComparator::EstimatedTtft, &draws)
    };
    assert_eq!(winner(&[0, 1, 2, 3], vec![false, false, false, false]), Some(0));
    assert_eq!(winner(&[0, 1, 2, 3], vec![false, true, true, false]), Some(1));
    assert_eq!(winner(&[0, 1, 2, 3], vec![false, true, false, true]), Some(3));
    assert_eq!(winner(&[2, 3], vec![false, false]), Some(3));
    assert_eq!(winner(&[], vec![]), None);
}

#[test]
fn second_draws_skip_the_first_number() {
    assert_eq!(distinct_pair(0, 0), (0, 1));
    assert_eq!(distinct_pair(3, 2), (3, 2));
    assert_eq!(distinct_pair(3, 3), (3, 4));
    let mut rng = StdRng::seed_from_u64(9);
    for _ in 0..64 {
        let (first, second) = sample_distinct_pair(3, &mut rng);
        assert!(first < 3 && second < 3 && first != second);
    }
}

#[test]
fn counts_become_the_nearest_numbers() {
    for count in [
        0,
        1,
        2,
        3,
        1000,
        (1 << 52) - 1,
        1 << 52,
        (1 << 53) - 1,
        1 << 53,
        (1 << 53) + 1,
        (1 << 53) + 3,
        (1 << 60) + 12_345_678_901,
        (1 << 63) + 1024,
        (1 << 63) + 3072,
        u64::MAX - 1024,
        u64::MAX - 1023,
        u64::MAX,
    ] {
        assert_eq!(Score::of_count(count).bits, (count as f64).to_bits(), "{count}");
    }
}

#[test]
fn queued_requests_show_as_they_compare() {
    let request = pool_request(&[]);
    let mut clusters = [pool_candidate("a", 1.0, 0), pool_candidate("b", 1.0, 0)];
    clusters[0].stats.queue_size = 7;
    clusters[1].stats.queue_size = 40;
    let candidates = snapshots(&request, &clusters);
    let comparator = ClusterComparator::NumRequestsQueued;
    assert_eq!(comparator.compare(&candidates[0], &candidates[1]), Order::Less);
    assert_eq!(value(comparator.trace(&candidates[0]).score), 7.0);
    assert_eq!(value(comparator.trace(&candidates[1]).score), 40.0);
}

#[test]
fn refused_fields_are_listed_in_ascending_order() {
    let common = RawCommonAlgorithmConfig {
        require_cache_affinity_key: None,
        require_input_tokens: None,
        max_input_work_seconds: None,
        request_algorithms: Vec::new(),
        unsupported_fields: ["zeta", "alpha", "mid", "alpha"].map(String::from).to_vec(),
    };
    let error = RawLoadBalancerAlgorithmConfig::Random(common).into_config().unwrap_err();
    assert_eq!(error.message(), "random config does not support field(s): alpha, mid, zeta");
}

#[test]
fn pulsar_widening_compares_by_queue_time() {
    let config = LoadBalancerAlgorithmConfig::new(LoadBalancerAlgorithm::PulsarWaitAndWiden);
    let resolved = WaitAndWidenConfig::from_algorithm_config(&config);
    assert_eq!(resolved.comparator, None);
    assert_eq!(resolved.compare_by(), ClusterComparator::QueueTime);
    let config = LoadBalancerAlgorithmConfig::new(LoadBalancerAlgorithm::WaitAndWiden);
    let resolved = WaitAndWidenConfig::from_algorithm_config(&config);
    assert_eq!(resolved.comparator, Some(ClusterComparator::EstimatedTtft));
}

#[test]
fn without_candidates_nothing_is_chosen() {
    let config = LoadBalancerAlgorithmConfig::new(LoadBalancerAlgorithm::WaitAndWiden);
    let balancer = WaitAndWidenLoadBalancer {
        config: WaitAndWidenConfig::from_algorithm_config(&config),
    };
    let request = pool_request(&[]);
    let choice =
        balancer.choose_candidate(&request.routed(), &Vec::new(), &None, &measures(&request));
    assert!(choice.is_none());
}

#[test]
fn white_space_is_trimmed_from_header_values() {
    let picked =
        LoadBalancerAlgorithmOverride::parse("\u{2003}\u{a0}Round_Robin\u{3000}\t").unwrap();
    assert_eq!(picked.requested_algorithm(), "Round_Robin");
    assert_eq!(picked.algorithm(), LoadBalancerAlgorithm::RoundRobin);
    assert!(LoadBalancerAlgorithmOverride::parse("\u{200b}random").is_err());
}

#[test]
fn swaps_follow_the_draws() {
    let mut items = vec![10, 11, 12, 13];
    swap_prefix(&mut items, &vec![2, 3]);
    assert_eq!(items, [12, 13, 10, 11]);
    swap_prefix(&mut items, &vec![0, 1, 2]);
    assert_eq!(items, [12, 13, 10, 11]);
    shuffle_prefix(&mut items, 0, &mut StdRng::seed_from_u64(5));
    assert_eq!(items, [12, 13, 10, 11]);
}

#[test]
fn shuffled_prefixes_keep_the_items() {
    let mut rng = StdRng::seed_from_u64(3);
    let mut orders = HashSet::new();
    for _ in 0..64 {
        let mut items = vec![0, 1, 2, 3];
        shuffle_prefix(&mut items, 2, &mut rng);
        let mut sorted = items.clone();
        sorted.sort();
        assert_eq!(sorted, [0, 1, 2, 3]);
        orders.insert(items);
    }
    assert!(orders.len() > 4);
}

#[test]
fn capacity_counts_running_requests_against_concurrency_and_queue() {
    let request = pool_request(&[]);
    let snapshot = |maximum, running| {
        snapshots(&request, &[concurrency_candidate("c", 1, maximum, running)]).remove(0)
    };
    assert!(has_capacity(&snapshot(0, 100), 0));
    assert!(has_capacity(&snapshot(2, 1), 0));
    assert!(!has_capacity(&snapshot(2, 2), 0));
    assert!(has_capacity(&snapshot(2, 2), 1));
    assert!(!has_capacity(&snapshot(2, 3), 1));
}

#[test]
fn scores_are_ordered_like_the_numbers_that_they_stand_for() {
    let numbers = [
        f64::NEG_INFINITY,
        -2.5,
        -0.0,
        0.0,
        f64::MIN_POSITIVE,
        1.0,
        1.0e300,
        f64::INFINITY,
        f64::NAN,
    ];
    for (i, a) in numbers.iter().enumerate() {
        for (j, b) in numbers.iter().enumerate() {
            let expected = if i < j {
                Order::Less
            } else if i == j {
                Order::Equal
            } else {
                Order::Greater
            };
            assert_eq!(score(*a).compare(score(*b)), expected, "{a} {b}");
        }
        assert_eq!(score(*a).is_finite(), a.is_finite());
    }
}

#[test]
fn config_errors_tell_what_is_wrong() {
    assert_eq!(
        LoadBalancerConfigError::SampleCount { sample_count: 65 }.message(),
        "power-of-n sample_count must be between 1 and 64, got 65"
    );
    assert_eq!(
        LoadBalancerSeedError::Unsupported { algorithm: LoadBalancerAlgorithm::Random }.message(),
        "seed is not supported for random"
    );
}

#[test]
fn routing_errors_give_the_header_and_a_reason() {
    let unknown = LoadBalancerRoutingAlgorithmError::Unknown { raw: "sticky".to_string() };
    assert_eq!(unknown.requested_algorithm(), "sticky");
    let unavailable = LoadBalancerRoutingAlgorithmError::Unavailable {
        raw: "pulsar".to_string(),
        algorithm: LoadBalancerAlgorithm::Pulsar,
    };
    assert_eq!(unavailable.requested_algorithm(), "pulsar");
    assert_ne!(unknown.reason(), unavailable.reason());
}

#[test]
fn randomly_chosen_clusters_are_eligible() {
    let router = router_with_default(LoadBalancerAlgorithm::Random);
    let request = request(&target(), None, None).excluding(&["cluster-0"]);
    let candidates = candidates(&["cluster-0", "cluster-1", "cluster-2"]);
    let mut target_state = LoadBalancerTargetState::default();
    let mut seen = HashSet::new();
    for _ in 0..64 {
        seen.insert(
            choose_from_router(&router, &mut target_state, &request, &candidates).cluster_id,
        );
    }
    assert_eq!(seen, HashSet::from(["cluster-1".to_string(), "cluster-2".to_string()]));
}

#[test]
fn queue_estimates_follow_the_nearest_priority_below() {
    let estimates = HashMap::from([(2, 20), (5, 50)]);
    assert_eq!(queue_time_estimate_ms_for_priority(&estimates, Some(7), 1), Some(0));
    assert_eq!(queue_time_estimate_ms_for_priority(&estimates, Some(7), 2), Some(20));
    assert_eq!(queue_time_estimate_ms_for_priority(&estimates, Some(7), 4), Some(20));
    assert_eq!(queue_time_estimate_ms_for_priority(&estimates, Some(7), 9), Some(50));
    assert_eq!(queue_time_estimate_ms_for_priority(&HashMap::new(), Some(7), 9), Some(7));
    assert_eq!(queue_time_estimate_ms_for_priority(&HashMap::new(), None, 9), None);
}

fn pulsar_wait_and_widen_config(
    configure: impl FnOnce(&mut WaitAndWidenAlgorithmConfig),
) -> LoadBalancerAlgorithmConfig {
    let mut config = LoadBalancerAlgorithmConfig::new(LoadBalancerAlgorithm::PulsarWaitAndWiden);
    configure(
        config
            .wait_and_widen_settings_mut()
            .expect("pulsar-wait-and-widen should expose wait_and_widen settings"),
    );
    config
}

fn choose_in_bands(
    config: &LoadBalancerAlgorithmConfig,
    request: &Request,
    clusters: &[Cluster],
    ranking: Vec<usize>,
) -> Option<LoadBalancerCandidateChoice> {
    choose_by_bands(
        &WaitAndWidenConfig::from_algorithm_config(config),
        &config.request_policy,
        &request.routed(),
        &measures(request),
        &snapshots(request, clusters),
        &ranking,
        &mut StdRng::seed_from_u64(7),
    )
}

fn banded_index(
    config: &LoadBalancerAlgorithmConfig,
    request: &Request,
    clusters: &[Cluster],
    ranking: Vec<usize>,
) -> Option<usize> {
    choose_in_bands(config, request, clusters, ranking).map(|choice| choice.candidate_index)
}

#[test]
fn a_usable_primary_wins_at_once_without_queue_bounds() {
    let config = pulsar_wait_and_widen_config(|_| {});
    let request = request(&target(), Some("prefix-a"), Some(1));
    let clusters = [
        candidate("fast", 1024).with_rtt_ms(1),
        candidate("primary", 1024).with_rtt_ms(900).with_stats(|stats| {
            stats.queued_input_size = 50_000;
        }),
    ];
    let choice = choose_in_bands(&config, &request, &clusters, vec![1, 0])
        .expect("candidate should be selected");
    assert_eq!(choice.candidate_index, 1);
    assert_eq!(choice.rank_depth, 1);
    assert!(!choice.selected_after_kv_free_tokens_skip);
}

#[test]
fn bands_widen_past_primaries_that_cannot_be_chosen() {
    let config = pulsar_wait_and_widen_config(|_| {});
    let base = request(&target(), Some("prefix-a"), Some(1));
    let clusters = [
        candidate("band-4-slow", 1024).with_rtt_ms(5).with_stats(|stats| {
            stats.queued_input_size = 1;
        }),
        candidate("band-4-fast", 1024).with_rtt_ms(5),
        candidate("band-2", 1024).with_rtt_ms(5),
        candidate("primary", 1024).with_rtt_ms(5),
        candidate("beyond", 1024).with_rtt_ms(1),
    ];
    let ranking = vec![3, 2, 0, 1, 4];

    let retry = base.clone().excluding(&["primary"]);
    assert_eq!(banded_index(&config, &retry, &clusters, ranking.clone()), Some(2));

    let retry = base.clone().excluding(&["primary", "band-2"]);
    assert_eq!(banded_index(&config, &retry, &clusters, ranking.clone()), Some(1));

    let retry =
        base.clone().excluding(&["primary", "band-2", "band-4-slow", "band-4-fast"]);
    assert_eq!(banded_index(&config, &retry, &clusters, ranking.clone()), Some(4));

    let retry = base.excluding(&["primary", "band-2", "band-4-slow", "band-4-fast", "beyond"]);
    assert_eq!(banded_index(&config, &retry, &clusters, ranking), None);
}

#[test]
fn queue_bounds_send_requests_past_a_long_queue() {
    let config = pulsar_wait_and_widen_config(|settings| {
        settings.max_queue_time_floor_ms = Some(100);
        settings.max_queue_time_ceil_ms = Some(100);
    });
    let request = request(&target(), Some("prefix-a"), Some(1));
    let clusters = [
        candidate("primary", 1024).with_stats(|stats| stats.queued_input_size = 50),
        candidate("second", 1024).with_stats(|stats| stats.queued_input_size = 5),
    ];
    assert_eq!(banded_index(&config, &request, &clusters, vec![0, 1]), Some(1));
    assert_eq!(banded_index(&config, &request, &clusters, vec![1, 0]), Some(1));
    assert_eq!(banded_index(&config, &request, &clusters, vec![0]), None);
    let unbounded = pulsar_wait_and_widen_config(|_| {});
    assert_eq!(banded_index(&unbounded, &request, &clusters, vec![0, 1]), Some(0));
}

#[test]
fn bands_pass_over_full_clusters_and_full_caches() {
    let mut config = pulsar_wait_and_widen_config(|_| {});
    let request = request(&target(), Some("prefix-a"), Some(512));
    let clusters = [
        candidate("full", 1024).with_stats(|stats| {
            stats.max_engine_concurrency = 1;
            stats.num_running_queries = 1;
        }),
        candidate("no-room", 100),
        candidate("room", 1024),
    ];
    assert_eq!(banded_index(&config, &request, &clusters, vec![0, 1, 2]), Some(1));
    config.request_policy_mut().consider_kv_free_tokens = true;
    assert_eq!(banded_index(&config, &request, &clusters, vec![0, 1, 2]), Some(2));
    assert_eq!(banded_index(&config, &request, &clusters, vec![1]), None);
    assert_eq!(banded_index(&config, &request, &clusters, Vec::new()), None);
}

#[test]
fn pulsar_wait_and_widen_never_chooses_a_failed_cluster() {
    let config = pulsar_wait_and_widen_config(|settings| settings.seed = Some("s".to_string()));
    let mut lb = create_load_balancer_with_config(config).expect("factory should accept it");
    let clusters = candidates(&["a", "b", "c"]);
    let mut base = request(&target(), Some("prefix-a"), Some(1));
    let mut tried = HashSet::new();
    for _ in 0..3 {
        let chosen = lb.choose_one(&base, &clusters).cluster_id;
        assert!(tried.insert(chosen.clone()));
        base.excluded.push(chosen);
    }
    assert!(lb.choose_for_test(&base, &clusters).is_none());
}

#[test]
fn the_last_entry_of_an_algorithm_and_of_a_model_counts() {
    let name = LoadBalancerModelConfig::Name;
    let mut entries = Vec::new();
    put_entry(&mut entries, LoadBalancerAlgorithm::Pulsar, name(LoadBalancerAlgorithm::Pulsar));
    put_entry(&mut entries, LoadBalancerAlgorithm::Random, name(LoadBalancerAlgorithm::Random));
    put_entry(
        &mut entries,
        LoadBalancerAlgorithm::Pulsar,
        LoadBalancerModelConfig::Detailed(Box::new(seeded_pulsar_algorithm_config("later"))),
    );
    assert_eq!(entries.len(), 2);
    assert_eq!(entries[0].0, LoadBalancerAlgorithm::Pulsar);
    match &entries[0].1 {
        LoadBalancerModelConfig::Detailed(config) => assert_eq!(config.seed(), Some("later")),
        LoadBalancerModelConfig::Name(_) => panic!("the first entry should be replaced"),
    }
    assert_eq!(entries[1].0, LoadBalancerAlgorithm::Random);

    let mut config = LoadBalancerConfig::new();
    config.put_model("a".to_string(), name(LoadBalancerAlgorithm::Random));
    config.put_model("b".to_string(), name(LoadBalancerAlgorithm::Pulsar));
    config.put_model("a".to_string(), name(LoadBalancerAlgorithm::RoundRobin));
    assert_eq!(config.models.len(), 2);
    assert_eq!(config.models[0].0, "a");
    assert!(matches!(
        config.models[0].1,
        LoadBalancerModelConfig::Name(LoadBalancerAlgorithm::RoundRobin)
    ));
    assert_eq!(config.models[1].0, "b");
}

#[test]
fn power_of_n_tells_how_many_clusters_it_compares() {
    let balancer =
        PowerOfNLoadBalancer { sample_count: 4, comparator: ClusterComparator::EstimatedTtft };
    let clusters = candidates(&["a", "b", "c", "d", "e", "f"]);
    let base = request(&target(), None, Some(1));
    let effective = |request: &Request, clusters: &[Cluster]| {
        balancer.effective_sample_count(&request.routed(), &snapshots(request, clusters))
    };
    assert_eq!(effective(&base, &clusters), 4);
    assert_eq!(effective(&base, &clusters[..3]), 3);
    assert_eq!(effective(&base.clone().excluding(&["a", "b", "c", "d"]), &clusters), 2);
    assert_eq!(effective(&base, &[]), 0);
}

#[test]
fn sample_sizes_are_recorded_for_power_of_n_alone() {
    let router = router_from_json(
        r#"{"default":"power-of-n","request_algorithms":{"random":"random"},"models":{"model-a":{"algorithm":"power-of-n","sample_count":5}}}"#,
    );
    let base = request(&target(), None, Some(1));
    let clusters = candidates(&["a", "b", "c"]);
    let recorded = |picked: Option<&LoadBalancerAlgorithmOverride>, clusters: &[Cluster]| {
        router
            .resolve_algorithm_override("model-a", picked)
            .expect("algorithm should resolve")
            .sample_records(&base.routed(), &snapshots(&base, clusters))
            .into_iter()
            .map(|(field, value)| match value {
                FieldValue::Number(number) => (field.as_str(), number),
                _ => panic!("a sample size is a number"),
            })
            .collect::<Vec<_>>()
    };
    assert_eq!(
        recorded(None, &clusters),
        [("routing.sample_count_configured", 5), ("routing.sample_count_effective", 3)]
    );
    assert!(recorded(None, &[]).is_empty());
    let random =
        LoadBalancerAlgorithmOverride::parse("random").expect("override should parse");
    assert!(recorded(Some(&random), &clusters).is_empty());
}

#[test]
fn a_position_may_be_given_twice() {
    let config = wait_and_widen_affinity_config(8, 2, Some(2));
    let request = request(&target(), Some("prefix-a"), Some(1));
    let clusters = candidates(&["a", "b"]);
    let lb = WaitAndWidenLoadBalancer { config };
    for affinity in [vec![1, 1], vec![1, 1, 1]] {
        let choice = lb
            .choose_candidate(
                &request.routed(),
                &snapshots(&request, &clusters),
                &Some(affinity),
                &measures(&request),
            )
            .expect("candidate should be selected");
        assert_eq!(choice.candidate_index, 1);
    }
}
