//! Metrics as they are exported.

use std::collections::HashMap;
use std::time::{Duration, SystemTime, UNIX_EPOCH};

use prometheus::{GaugeVec, HistogramOpts, HistogramVec, Opts, Registry};
use stargate::load_balancer::score::Score;
use stargate::metrics::pylon::{
    request_state_label, saturating_i64, CalibrationOutcome, CurrentModelStats, FloatGaugeValue,
    HistogramSample, HistogramValue, InferenceServerStatus, ObservedRequestState, PylonMetrics,
    RequestObservation, RequestObservationState, RequestObservationTransition, StateInputTokens,
    TimeSpan,
};
use stargate::metrics::pylon_families::{PylonFloatGauge, PylonHistogram};
use stargate::metrics::router::{router_is_ready, RouterMetrics};

fn score(value: f64) -> Score {
    Score { bits: value.to_bits() }
}

fn span(duration: Duration) -> TimeSpan {
    TimeSpan { seconds: duration.as_secs(), nanos: duration.subsec_nanos() }
}

/// The families of fractions, entered into the registry of a pylon.
struct FloatFamilies {
    gauges: HashMap<String, GaugeVec>,
    histograms: HashMap<String, HistogramVec>,
}

fn all_float_gauges() -> [PylonFloatGauge; 10] {
    [
        PylonFloatGauge::OutputTps,
        PylonFloatGauge::EmbeddingItemTps,
        PylonFloatGauge::LastMeanInputTps,
        PylonFloatGauge::MaxOutputTps,
        PylonFloatGauge::MaxEmbeddingItemTps,
        PylonFloatGauge::QueueSize,
        PylonFloatGauge::QueuedInputTokens,
        PylonFloatGauge::KvCacheCapacityTokens,
        PylonFloatGauge::KvCacheUsedTokens,
        PylonFloatGauge::KvCacheFreeTokens,
    ]
}

fn all_histograms() -> [PylonHistogram; 9] {
    [
        PylonHistogram::TimeToResponseHeaders,
        PylonHistogram::TimeToFirstOutput,
        PylonHistogram::TimeToFirstToken,
        PylonHistogram::RequestDuration,
        PylonHistogram::InputTokens,
        PylonHistogram::OutputTokens,
        PylonHistogram::CalibrationDuration,
        PylonHistogram::QueueAdmissionExpected,
        PylonHistogram::QueueAdmissionActual,
    ]
}

impl FloatFamilies {
    fn new(registry: &Registry) -> Self {
        let mut gauges = HashMap::new();
        for gauge in all_float_gauges() {
            let descriptor = gauge.descriptor();
            let family =
                GaugeVec::new(Opts::new(descriptor.name, descriptor.help), &descriptor.labels)
                    .unwrap();
            registry.register(Box::new(family.clone())).unwrap();
            gauges.insert(descriptor.name.to_string(), family);
        }
        let mut histograms = HashMap::new();
        for histogram in all_histograms() {
            let descriptor = histogram.descriptor();
            let family = HistogramVec::new(
                HistogramOpts::new(descriptor.name, descriptor.help),
                &descriptor.labels,
            )
            .unwrap();
            registry.register(Box::new(family.clone())).unwrap();
            histograms.insert(descriptor.name.to_string(), family);
        }
        FloatFamilies { gauges, histograms }
    }

    fn show(&self, model_id: &str, values: Vec<(PylonFloatGauge, FloatGaugeValue)>) {
        for (gauge, value) in values {
            let number = match value {
                FloatGaugeValue::Number(number) => number as f64,
                FloatGaugeValue::Fraction(fraction) => f64::from_bits(fraction.bits),
            };
            self.gauges[gauge.descriptor().name].with_label_values(&[model_id]).set(number);
        }
    }

    fn retire(&self, model_id: &str, gauges: Vec<PylonFloatGauge>) {
        for gauge in gauges {
            let _ = self.gauges[gauge.descriptor().name].remove_label_values(&[model_id]);
        }
    }

    fn observe(&self, samples: Vec<HistogramSample>) {
        for sample in samples {
            let seconds =
                |span: TimeSpan| Duration::new(span.seconds, span.nanos).as_secs_f64();
            let number = match sample.value {
                HistogramValue::Seconds(span) => seconds(span),
                HistogramValue::Millis(span) => seconds(span) * 1_000.0,
                HistogramValue::Number(number) => number as f64,
            };
            let labels: Vec<&str> = sample.labels.iter().map(String::as_str).collect();
            self.histograms[sample.histogram.descriptor().name]
                .with_label_values(&labels)
                .observe(number);
        }
    }
}

fn stats() -> CurrentModelStats {
    CurrentModelStats {
        output_tps: score(0.0),
        embedding_item_tps: score(0.0),
        last_mean_input_tps: score(0.0),
        max_output_tps: score(0.0),
        max_embedding_item_tps: score(0.0),
        queue_size: 0,
        queued_input_size: 0,
        kv_cache_capacity_tokens: 0,
        kv_cache_used_tokens: 0,
        kv_cache_free_tokens: 0,
        stats_capabilities: Vec::new(),
        stats_sources: Vec::new(),
    }
}

fn assert_metrics(metrics: &PylonMetrics, expected: &[&str]) -> String {
    let body = metrics.gather_text().expect("metrics should encode");
    for expected in expected {
        assert!(body.contains(expected), "missing metric sample: {expected}");
    }
    body
}

#[test]
fn tls_reload_metrics_are_preinitialized() {
    let mut metrics = PylonMetrics::new().expect("metrics should initialize");
    assert!(!metrics.tls_identity_is_ready());
    metrics.observe_tls_reload("client_trust", "success");
    metrics.set_tls_certificate_expiry(1_800_000_000);
    assert!(!metrics.tls_identity_is_ready());
    metrics.mark_tls_initial_validation_complete();
    let body = metrics.gather_text().expect("metrics should encode");

    assert!(body
        .contains(r#"pylon_tls_reloads_total{material_type="client_trust",result="success"} 1"#));
    assert!(body.contains(
        r#"pylon_tls_reloads_total{material_type="server_identity",result="rejected"} 0"#
    ));
    assert!(body.contains(
        r#"pylon_tls_certificate_expiry_seconds{material_type="server_identity"} 1800000000"#
    ));
    assert!(metrics.tls_identity_is_ready());
    metrics.set_tls_certificate_expiry(0);
    assert!(!metrics.tls_identity_is_ready());
}

fn observation(
    state: RequestObservationState,
    input_tokens: u64,
    output_tokens: u64,
) -> RequestObservation {
    RequestObservation {
        model_id: "model-a".to_string(),
        routing_key: Some("rk-a".to_string()),
        state,
        input_tokens,
        output_tokens,
        output_tokens_from_chunk_usage: false,
        time_to_response_headers: Some(span(Duration::from_millis(10))),
        time_to_first_output: Some(span(Duration::from_millis(20))),
        time_to_first_token: Some(span(Duration::from_millis(25))),
        total_duration: span(Duration::from_millis(50)),
    }
}

fn counted(state: RequestObservationState) -> Option<ObservedRequestState> {
    Some(ObservedRequestState { model_id: "model-a".to_string(), state })
}

fn total(state: RequestObservationState, input_tokens: u128) -> StateInputTokens {
    StateInputTokens { model_id: "model-a".to_string(), state, input_tokens }
}

#[test]
fn target_info_and_connectivity_gauges_are_recorded() {
    let mut metrics = PylonMetrics::new().expect("metrics should initialize");

    metrics.observe_target_info("0.1.0", "pylon", "abc123");
    metrics.observe_registration_stream_connected("router-a", true);
    metrics.observe_reverse_tunnel_connected("router-a", true);

    assert_metrics(
        &metrics,
        &[
            r#"target_info{commit="abc123",service_name="pylon",service_version="0.1.0"} 1"#,
            r#"pylon_registration_stream_connected{router="router-a"} 1"#,
            r#"pylon_reverse_tunnel_connected{router="router-a"} 1"#,
        ],
    );
}

#[test]
fn engine_stats_metrics_are_recorded_by_mode_source_and_reason() {
    let mut metrics = PylonMetrics::new().expect("metrics should initialize");

    metrics.observe_engine_stats_stream_event("stats");
    metrics.observe_engine_stats_invalid_event("json_parse");
    metrics.observe_engine_stats_reconnect("eof");
    metrics.observe_engine_stats_stream_connected("auto", true);
    metrics.observe_engine_stats_live_requests("engine_stats_stream", 2);
    metrics.observe_engine_stats_model_states("openai_fallback", 3);
    metrics.observe_engine_stats_stale_cleanup("request", "engine_stats_stream");
    metrics.observe_engine_stats_dirty_snapshot("openai_fallback", "missing_model");
    metrics.observe_engine_stats_source_transition(
        "openai_fallback",
        "engine_stats_stream",
        "fresh_stream",
    );

    assert_metrics(
        &metrics,
        &[
            r#"pylon_engine_stats_stream_events_total{type="stats"} 1"#,
            r#"pylon_engine_stats_stream_invalid_events_total{reason="json_parse"} 1"#,
            r#"pylon_engine_stats_stream_reconnects_total{reason="eof"} 1"#,
            r#"pylon_engine_stats_stream_connected{mode="auto"} 1"#,
            r#"pylon_engine_stats_live_requests{source="engine_stats_stream"} 2"#,
            r#"pylon_engine_stats_model_states{source="openai_fallback"} 3"#,
            r#"pylon_engine_stats_stale_cleanups_total{kind="request",source="engine_stats_stream"} 1"#,
            r#"pylon_engine_stats_dirty_snapshots_total{reason="missing_model",source="openai_fallback"} 1"#,
            r#"pylon_engine_stats_source_transitions_total{from="openai_fallback",reason="fresh_stream",to="engine_stats_stream"} 1"#,
        ],
    );
}

#[test]
fn model_discovery_metrics_record_outcomes_and_last_valid_count() {
    let mut metrics = PylonMetrics::new().expect("metrics should initialize");

    metrics.observe_model_discovery_poll("dynamo", "success", Some(2));
    metrics.observe_model_discovery_poll("dynamo", "error", None);

    assert_metrics(
        &metrics,
        &[
            r#"pylon_model_discovery_polls_total{outcome="success",provider="dynamo"} 1"#,
            r#"pylon_model_discovery_polls_total{outcome="error",provider="dynamo"} 1"#,
            r#"pylon_model_discovery_models{provider="dynamo"} 2"#,
        ],
    );
}

#[test]
fn retiring_model_removes_current_model_gauges() {
    let mut metrics = PylonMetrics::new().expect("metrics should initialize");
    let families = FloatFamilies::new(&metrics.registry());
    let stats = CurrentModelStats {
        last_mean_input_tps: score(12.0),
        stats_capabilities: vec!["input_tps".to_string()],
        stats_sources: vec!["engine_stats_stream".to_string()],
        ..stats()
    };
    families.show("model-a", metrics.observe_model_stats("model-a", &stats));
    assert_metrics(&metrics, &[r#"model="model-a""#]);

    families.retire("model-a", metrics.remove_model_gauges("model-a", Some(&stats)));

    let body = metrics.gather_text().expect("metrics should encode");
    assert!(!body.contains(r#"model="model-a""#));
}

#[test]
fn every_line_but_headers_shows_a_sample() {
    let mut metrics = RouterMetrics::new().expect("metrics should initialize");
    metrics.observe_quic_connection("line\nbreak");
    metrics.set_tls_certificate_expiry(12);
    let body = metrics.gather().expect("metrics should encode");
    let mut shown: Vec<&str> = body.lines().filter(|line| !line.starts_with('#')).collect();
    shown.sort();
    assert_eq!(
        shown,
        [
            r#"stargate_k8s_router_quic_connections_total{outcome="line\nbreak"} 1"#,
            r#"stargate_k8s_router_tls_certificate_expiry_seconds{material_type="server_identity"} 12"#,
            r#"stargate_k8s_router_tls_reloads_total{material_type="client_trust",result="rejected"} 0"#,
            r#"stargate_k8s_router_tls_reloads_total{material_type="client_trust",result="success"} 0"#,
            r#"stargate_k8s_router_tls_reloads_total{material_type="server_identity",result="rejected"} 0"#,
            r#"stargate_k8s_router_tls_reloads_total{material_type="server_identity",result="success"} 0"#,
        ]
    );
    assert!(body.ends_with('\n'));
}

#[test]
fn the_registry_handle_leads_to_the_exported_families() {
    let mut metrics = PylonMetrics::new().expect("metrics should initialize");
    let registry = metrics.registry();
    metrics.observe_tls_reload("client_trust", "success");
    let exported = prometheus::TextEncoder::new().encode_to_string(&registry.gather()).unwrap();
    assert_eq!(metrics.gather_text().expect("metrics should encode"), exported);
    assert!(exported.contains("pylon_tls_reloads_total"));
}

#[test]
fn fetching_a_counter_shows_it_at_zero() {
    let mut metrics = PylonMetrics::new().expect("metrics should initialize");

    metrics.retryable_responses_total("pylon-a", "timeout", "504");
    metrics.nonretryable_failures_total("pylon-a", "bad_request");
    let mut counter = metrics.nonretryable_failures_total("pylon-a", "closed");
    counter.inc();
    counter.inc();

    assert_metrics(
        &metrics,
        &[
            r#"pylon_retryable_responses_total{inference_server_id="pylon-a",reason="timeout",status="504"} 0"#,
            r#"pylon_nonretryable_failures_total{inference_server_id="pylon-a",reason="bad_request"} 0"#,
            r#"pylon_nonretryable_failures_total{inference_server_id="pylon-a",reason="closed"} 2"#,
        ],
    );
}

#[test]
fn retry_failure_and_queue_admission_metrics_are_recorded() {
    let mut metrics = PylonMetrics::new().expect("metrics should initialize");
    let families = FloatFamilies::new(&metrics.registry());

    metrics.retryable_responses_total("pylon-a", "upstream_status", "503").inc();
    metrics.nonretryable_failures_total("pylon-a", "local_connect_failure").inc();
    families.observe(metrics.observe_queue_admission_decision(
        "pylon-a",
        "model-a",
        "rejected",
        Some(17),
        Some(23),
    ));

    assert_metrics(
        &metrics,
        &[
            r#"pylon_retryable_responses_total{inference_server_id="pylon-a",reason="upstream_status",status="503"} 1"#,
            r#"pylon_nonretryable_failures_total{inference_server_id="pylon-a",reason="local_connect_failure"} 1"#,
            r#"pylon_queue_admission_decisions_total{inference_server_id="pylon-a",model_id="model-a",result="rejected"} 1"#,
            r#"pylon_queue_admission_expected_ms_count{inference_server_id="pylon-a",model_id="model-a"} 1"#,
            r#"pylon_queue_admission_expected_ms_sum{inference_server_id="pylon-a",model_id="model-a"} 17"#,
            r#"pylon_queue_admission_actual_ms_count{inference_server_id="pylon-a",model_id="model-a"} 1"#,
            r#"pylon_queue_admission_actual_ms_sum{inference_server_id="pylon-a",model_id="model-a"} 23"#,
        ],
    );
}

#[test]
fn request_observations_update_state_gauges_and_terminal_counters() {
    let mut metrics = PylonMetrics::new().expect("metrics should initialize");
    let families = FloatFamilies::new(&metrics.registry());

    families.observe(metrics.observe_request_transition(
        &observation(RequestObservationState::InputProcessing, 11, 0),
        &RequestObservationTransition {
            prior: None,
            current: counted(RequestObservationState::InputProcessing),
            input_token_totals: vec![total(RequestObservationState::InputProcessing, 11)],
        },
    ));
    assert_metrics(
        &metrics,
        &[
            r#"pylon_requests_state{model="model-a",state="input_processing"} 1"#,
            r#"pylon_requests_state_input_tokens{model="model-a",state="input_processing"} 11"#,
        ],
    );

    families.observe(metrics.observe_request_transition(
        &observation(RequestObservationState::OutputGeneration, 11, 3),
        &RequestObservationTransition {
            prior: counted(RequestObservationState::InputProcessing),
            current: counted(RequestObservationState::OutputGeneration),
            input_token_totals: vec![
                total(RequestObservationState::InputProcessing, 0),
                total(RequestObservationState::OutputGeneration, 11),
            ],
        },
    ));
    assert_metrics(
        &metrics,
        &[
            r#"pylon_requests_state{model="model-a",state="input_processing"} 0"#,
            r#"pylon_requests_state{model="model-a",state="output_generation"} 1"#,
        ],
    );

    families.observe(metrics.observe_request_transition(
        &observation(RequestObservationState::Complete, 11, 3),
        &RequestObservationTransition {
            prior: counted(RequestObservationState::OutputGeneration),
            current: None,
            input_token_totals: vec![total(RequestObservationState::OutputGeneration, 0)],
        },
    ));
    assert_metrics(
        &metrics,
        &[
            r#"pylon_requests_state{model="model-a",state="output_generation"} 0"#,
            r#"pylon_requests_total{model="model-a",routing_key="rk-a",status="complete"} 1"#,
            r#"pylon_request_duration_seconds_count{model="model-a",routing_key="rk-a",status="complete"} 1"#,
            r#"pylon_request_time_to_response_headers_seconds_count{model="model-a",routing_key="rk-a"} 1"#,
            r#"pylon_request_time_to_first_token_seconds_count{model="model-a",routing_key="rk-a"} 1"#,
            r#"pylon_request_input_tokens_total{model="model-a",routing_key="rk-a",status="complete"} 11"#,
            r#"pylon_request_output_tokens_total{model="model-a",routing_key="rk-a",status="complete"} 3"#,
            r#"pylon_request_input_tokens_count{model="model-a",routing_key="rk-a",status="complete"} 1"#,
            r#"pylon_request_output_tokens_count{model="model-a",routing_key="rk-a",status="complete"} 1"#,
        ],
    );
}

#[test]
fn state_input_token_gauges_saturate() {
    let mut metrics = PylonMetrics::new().expect("metrics should initialize");
    let transition = |input_tokens| RequestObservationTransition {
        prior: None,
        current: counted(RequestObservationState::InputProcessing),
        input_token_totals: vec![total(RequestObservationState::InputProcessing, input_tokens)],
    };
    let seen = observation(RequestObservationState::InputProcessing, u64::MAX, 0);
    metrics.observe_request_transition(&seen, &transition(2 * u128::from(u64::MAX)));
    assert_metrics(
        &metrics,
        &[
            r#"pylon_requests_state_input_tokens{model="model-a",state="input_processing"} 9223372036854776000"#,
        ],
    );
    metrics.observe_request_transition(&seen, &transition(0));
    assert_metrics(
        &metrics,
        &[
            r#"pylon_requests_inflight{model="model-a"} 2"#,
            r#"pylon_requests_state_input_tokens{model="model-a",state="input_processing"} 0"#,
        ],
    );
}

#[test]
fn terminal_observations_record_stats_sources() {
    let mut metrics = PylonMetrics::new().expect("metrics should initialize");
    let mut observation = observation(RequestObservationState::Complete, 11, 3);
    observation.output_tokens_from_chunk_usage = true;

    metrics.observe_request_transition(
        &observation,
        &RequestObservationTransition {
            prior: None,
            current: None,
            input_token_totals: Vec::new(),
        },
    );

    let body = metrics.gather_text().expect("metrics should encode");
    assert!(body.lines().any(|line| {
        line.starts_with("pylon_request_stats_sources_total{")
            && line.contains(r#"model="model-a""#)
            && line.contains(r#"routing_key="rk-a""#)
            && line.contains(r#"status="complete""#)
            && line.contains(r#"source="chunk_usage""#)
            && line.ends_with(" 1")
    }));
}

#[test]
fn model_stats_update_capacity_and_queue_gauges() {
    let mut metrics = PylonMetrics::new().expect("metrics should initialize");
    let families = FloatFamilies::new(&metrics.registry());

    let values = metrics.observe_model_stats(
        "model-a",
        &CurrentModelStats {
            output_tps: score(20.0),
            embedding_item_tps: score(25.0),
            last_mean_input_tps: score(30.0),
            max_output_tps: score(40.0),
            max_embedding_item_tps: score(45.0),
            queue_size: 2,
            queued_input_size: 17,
            kv_cache_capacity_tokens: 100,
            kv_cache_used_tokens: 30,
            kv_cache_free_tokens: 70,
            stats_capabilities: vec!["model.throughput.engine_stream".to_string()],
            stats_sources: vec!["engine_stats_stream".to_string()],
        },
    );
    families.show("model-a", values);

    assert_metrics(
        &metrics,
        &[
            r#"pylon_model_output_tps{model="model-a"} 20"#,
            r#"pylon_model_embedding_item_tps{model="model-a"} 25"#,
            r#"pylon_model_last_mean_input_tps{model="model-a"} 30"#,
            r#"pylon_model_max_embedding_item_tps{model="model-a"} 45"#,
            r#"pylon_model_queue_size{model="model-a"} 2"#,
            r#"pylon_model_queued_input_tokens{model="model-a"} 17"#,
            r#"pylon_model_kv_cache_free_tokens{model="model-a"} 70"#,
            r#"pylon_model_stats_capability{capability="model.throughput.engine_stream",model="model-a"} 1"#,
            r#"pylon_model_stats_source{model="model-a",source="engine_stats_stream"} 1"#,
        ],
    );
}

#[test]
fn advertised_status_updates_router_model_status_gauges() {
    let mut metrics = PylonMetrics::new().expect("metrics should initialize");

    metrics.observe_model_advertised_status(
        "127.0.0.1:50071",
        "model-a",
        InferenceServerStatus::Active,
    );

    assert_metrics(
        &metrics,
        &[
            r#"pylon_model_advertised_status{model="model-a",router="127.0.0.1:50071",status="active"} 1"#,
            r#"pylon_model_advertised_status{model="model-a",router="127.0.0.1:50071",status="inactive"} 0"#,
        ],
    );

    metrics.remove_model_advertised_status("127.0.0.1:50071", "model-a");
    let body = metrics.gather_text().expect("metrics should encode");
    assert!(!body.contains("pylon_model_advertised_status{"));
}

#[test]
fn calibration_duration_histogram_is_recorded_by_model_and_outcome() {
    let mut metrics = PylonMetrics::new().expect("metrics should initialize");
    let families = FloatFamilies::new(&metrics.registry());

    for (millis, outcome) in [
        (42, CalibrationOutcome::Completed),
        (7, CalibrationOutcome::Error),
        (3, CalibrationOutcome::Cancelled),
    ] {
        families.observe(vec![metrics.observe_model_calibration_duration(
            "model-a",
            span(Duration::from_millis(millis)),
            outcome,
        )]);
    }

    assert_metrics(
        &metrics,
        &[
            r#"pylon_model_calibration_duration_ms_count{model="model-a",outcome="completed"} 1"#,
            r#"pylon_model_calibration_duration_ms_sum{model="model-a",outcome="completed"} 42"#,
            r#"pylon_model_calibration_duration_ms_count{model="model-a",outcome="error"} 1"#,
            r#"pylon_model_calibration_duration_ms_sum{model="model-a",outcome="error"} 7"#,
            r#"pylon_model_calibration_duration_ms_count{model="model-a",outcome="cancelled"} 1"#,
            r#"pylon_model_calibration_duration_ms_sum{model="model-a",outcome="cancelled"} 3"#,
        ],
    );
}

#[test]
fn quality_check_counters_are_recorded() {
    let mut metrics = PylonMetrics::new().expect("metrics should initialize");

    metrics.observe_quality_check_result("model-a", "clean");
    metrics.observe_quality_check_result("model-a", "matched");
    metrics.observe_quality_check_result("model-a", "skipped");
    metrics.observe_quality_threshold_match("model-a", "repetition_1gram");

    assert_metrics(
        &metrics,
        &[
            r#"pylon_quality_checks_total{model="model-a",result="clean"} 1"#,
            r#"pylon_quality_checks_total{model="model-a",result="matched"} 1"#,
            r#"pylon_quality_checks_total{model="model-a",result="skipped"} 1"#,
            r#"pylon_quality_threshold_matches_total{model="model-a",reason="repetition_1gram"} 1"#,
        ],
    );
}

#[test]
fn quality_check_metrics_are_isolated_by_model_and_reason() {
    let mut metrics = PylonMetrics::new().expect("metrics should initialize");

    metrics.observe_quality_check_result("model-a", "clean");
    metrics.observe_quality_check_result("model-b", "matched");
    metrics.observe_quality_threshold_match("model-a", "repetition_1gram");
    metrics.observe_quality_threshold_match("model-b", "degeneracy_score");

    let body = assert_metrics(
        &metrics,
        &[
            r#"pylon_quality_checks_total{model="model-a",result="clean"} 1"#,
            r#"pylon_quality_checks_total{model="model-b",result="matched"} 1"#,
            r#"pylon_quality_threshold_matches_total{model="model-a",reason="repetition_1gram"} 1"#,
            r#"pylon_quality_threshold_matches_total{model="model-b",reason="degeneracy_score"} 1"#,
        ],
    );
    assert!(!body.contains(
        r#"pylon_quality_threshold_matches_total{model="model-a",reason="degeneracy_score"}"#
    ));
}

#[test]
fn labels_and_limits_of_gauges() {
    assert_eq!(request_state_label(RequestObservationState::Queued), "queued");
    assert_eq!(
        request_state_label(RequestObservationState::UpstreamConnecting),
        "upstream_connecting"
    );
    assert_eq!(request_state_label(RequestObservationState::Failed), "failed");
    assert_eq!(saturating_i64(7), 7);
    assert_eq!(saturating_i64(u128::MAX), i64::MAX);
}

#[test]
fn readiness_ends_with_the_certificate() {
    let mut metrics = PylonMetrics::new().expect("metrics should initialize");
    metrics.mark_tls_initial_validation_complete();
    assert!(metrics.tls_identity_is_ready());
    metrics.set_tls_certificate_expiry(100);
    assert!(metrics.tls_identity_is_ready_at(Some(100)));
    assert!(!metrics.tls_identity_is_ready_at(Some(101)));
    assert!(!metrics.tls_identity_is_ready_at(None));
    let now = SystemTime::now().duration_since(UNIX_EPOCH).unwrap().as_secs() as i64;
    metrics.set_tls_certificate_expiry(now + 3600);
    assert!(metrics.tls_identity_is_ready());
    metrics.set_tls_certificate_expiry(now - 3600);
    assert!(!metrics.tls_identity_is_ready());
}

#[test]
fn metrics_exports_quic_connection_outcomes() {
    let mut metrics = RouterMetrics::new().expect("metrics should initialize");
    metrics.observe_quic_connection("accepted");
    metrics.observe_quic_connection("accepted");
    metrics.observe_quic_connection("unknown_sni");

    let body = metrics.gather().expect("metrics should encode");

    assert!(body.contains(r#"stargate_k8s_router_quic_connections_total{outcome="accepted"} 2"#));
    assert!(
        body.contains(r#"stargate_k8s_router_quic_connections_total{outcome="unknown_sni"} 1"#)
    );
}

#[test]
fn metrics_exports_webtransport_session_outcomes() {
    let mut metrics = RouterMetrics::new().expect("metrics should initialize");
    metrics.observe_webtransport_session("accepted");
    metrics.observe_webtransport_session("completed");

    let body = metrics.gather().expect("metrics should encode");

    assert!(
        body.contains(r#"stargate_k8s_router_webtransport_sessions_total{outcome="accepted"} 1"#)
    );
    assert!(
        body.contains(r#"stargate_k8s_router_webtransport_sessions_total{outcome="completed"} 1"#)
    );
}

#[test]
fn tls_reload_metrics_are_preinitialized_and_bounded() {
    let mut metrics = RouterMetrics::new().expect("metrics should initialize");
    metrics.observe_tls_reload("server_identity", "success");
    metrics.set_tls_certificate_expiry(1_800_000_000);
    let body = metrics.gather().expect("metrics should encode");

    assert!(body.contains(r#"stargate_k8s_router_tls_reloads_total{material_type="server_identity",result="success"} 1"#));
    assert!(body.contains(r#"stargate_k8s_router_tls_reloads_total{material_type="client_trust",result="rejected"} 0"#));
    assert!(body.contains(r#"stargate_k8s_router_tls_certificate_expiry_seconds{material_type="server_identity"} 1800000000"#));
}

#[test]
fn readyz_requires_initialized_nonempty_snapshot() {
    let mut metrics = RouterMetrics::new().expect("metrics should initialize");
    assert!(!router_is_ready(false, 0, metrics.tls_identity_is_ready()));
    assert!(!router_is_ready(true, 0, metrics.tls_identity_is_ready()));
    assert!(router_is_ready(true, 1, metrics.tls_identity_is_ready()));
    metrics.set_tls_certificate_expiry(0);
    assert!(!router_is_ready(true, 1, metrics.tls_identity_is_ready()));
    assert!(metrics.tls_identity_is_ready_at(Some(0)));
}
