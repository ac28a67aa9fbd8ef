//! What is recorded in the trace of a request.

use crate::load_balancer::comparator::ClusterComparatorTrace;
use crate::load_balancer::score::Score;
use vstd::prelude::*;

verus! {

/// A field of the span of a proxied request.
#[derive(Clone, Copy, Debug, PartialEq, Eq, Structural)]
pub enum SpanField {
    RequestEndpoint,
    RequestRoutingKey,
    RequestModelId,
    RequestPath,
    RequestInputTokens,
    RequestPriority,
    RequestMaxWaitMs,
    RequestSloMs,
    RequestCacheAffinityKeyPresent,
    RoutingRequestedAlgorithm,
    RoutingInvalidRequestedAlgorithm,
    SelectedClusterId,
    SelectedInstId,
    SelectedInstOutputTps,
    SelectedInstLastMeanInputTps,
    SelectedInstMaxOutputTps,
    SelectedInstQueueSize,
    SelectedInstQueuedInputSize,
    SelectedInstNumRunningQueries,
    SelectedInstMaxEngineConcurrency,
    SelectedInstTotalQueryInputSize,
    SelectedInstKvCacheCapacityTokens,
    SelectedInstKvCacheUsedTokens,
    SelectedInstKvCacheFreeTokens,
    SelectedInstRttMs,
    SelectedInstSnapshotAgeMs,
    RoutingAlgorithm,
    RoutingNumCandidates,
    RoutingSampleCountConfigured,
    RoutingSampleCountEffective,
    RoutingComparator,
    RoutingComparatorScore,
    RoutingComparatorQueueMs,
    RoutingComparatorPrefillMs,
    RoutingComparatorRttMs,
    RoutingRankDepth,
    RoutingSelectedAfterKvFreeTokensSkip,
    RoutingRetryAttempts,
    RoutingAdmissionRejectionReason,
    ProxyUpstreamStatus,
    ProxyTimeToFirstByteMs,
    ProxyAttempt,
    ProxyConnectAttempts,
    ProxyRequestRetries,
    ProxyFailedBackends,
    ProxyQueueExpectedMs,
    ProxyRetryReason,
    ProxyReplayBodyBytes,
}

impl SpanField {
    /// The name of the field.
    pub open spec fn label(self) -> Seq<char> {
        match self {
            SpanField::RequestEndpoint => "request.endpoint"@,
            SpanField::RequestRoutingKey => "request.routing_key"@,
            SpanField::RequestModelId => "request.model_id"@,
            SpanField::RequestPath => "request.path"@,
            SpanField::RequestInputTokens => "request.input_tokens"@,
            SpanField::RequestPriority => "request.priority"@,
            SpanField::RequestMaxWaitMs => "request.max_wait_ms"@,
            SpanField::RequestSloMs => "request.slo_ms"@,
            SpanField::RequestCacheAffinityKeyPresent => "request.cache_affinity_key_present"@,
            SpanField::RoutingRequestedAlgorithm => "routing.requested_algorithm"@,
            SpanField::RoutingInvalidRequestedAlgorithm => "routing.invalid_requested_algorithm"@,
            SpanField::SelectedClusterId => "selected_cluster.id"@,
            SpanField::SelectedInstId => "selected_inst.id"@,
            SpanField::SelectedInstOutputTps => "selected_inst.output_tps"@,
            SpanField::SelectedInstLastMeanInputTps => "selected_inst.last_mean_input_tps"@,
            SpanField::SelectedInstMaxOutputTps => "selected_inst.max_output_tps"@,
            SpanField::SelectedInstQueueSize => "selected_inst.queue_size"@,
            SpanField::SelectedInstQueuedInputSize => "selected_inst.queued_input_size"@,
            SpanField::SelectedInstNumRunningQueries => "selected_inst.num_running_queries"@,
            SpanField::SelectedInstMaxEngineConcurrency => "selected_inst.max_engine_concurrency"@,
            SpanField::SelectedInstTotalQueryInputSize => "selected_inst.total_query_input_size"@,
            SpanField::SelectedInstKvCacheCapacityTokens =>
                "selected_inst.kv_cache_capacity_tokens"@,
            SpanField::SelectedInstKvCacheUsedTokens => "selected_inst.kv_cache_used_tokens"@,
            SpanField::SelectedInstKvCacheFreeTokens => "selected_inst.kv_cache_free_tokens"@,
            SpanField::SelectedInstRttMs => "selected_inst.rtt_ms"@,
            SpanField::SelectedInstSnapshotAgeMs => "selected_inst.snapshot_age_ms"@,
            SpanField::RoutingAlgorithm => "routing.algorithm"@,
            SpanField::RoutingNumCandidates => "routing.num_candidates"@,
            SpanField::RoutingSampleCountConfigured => "routing.sample_count_configured"@,
            SpanField::RoutingSampleCountEffective => "routing.sample_count_effective"@,
            SpanField::RoutingComparator => "routing.comparator"@,
            SpanField::RoutingComparatorScore => "routing.comparator.score"@,
            SpanField::RoutingComparatorQueueMs => "routing.comparator.queue_ms"@,
            SpanField::RoutingComparatorPrefillMs => "routing.comparator.prefill_ms"@,
            SpanField::RoutingComparatorRttMs => "routing.comparator.rtt_ms"@,
            SpanField::RoutingRankDepth => "routing.rank_depth"@,
            SpanField::RoutingSelectedAfterKvFreeTokensSkip =>
                "routing.selected_after_kv_free_tokens_skip"@,
            SpanField::RoutingRetryAttempts => "routing.retry_attempts"@,
            SpanField::RoutingAdmissionRejectionReason => "routing.admission_rejection_reason"@,
            SpanField::ProxyUpstreamStatus => "proxy.upstream_status"@,
            SpanField::ProxyTimeToFirstByteMs => "proxy.time_to_first_byte_ms"@,
            SpanField::ProxyAttempt => "proxy.attempt"@,
            SpanField::ProxyConnectAttempts => "proxy.connect_attempts"@,
            SpanField::ProxyRequestRetries => "proxy.request_retries"@,
            SpanField::ProxyFailedBackends => "proxy.failed_backends"@,
            SpanField::ProxyQueueExpectedMs => "proxy.queue.expected_ms"@,
            SpanField::ProxyRetryReason => "proxy.retry_reason"@,
            SpanField::ProxyReplayBodyBytes => "proxy.replay_body_bytes"@,
        }
    }

    /// The name of the field.
    pub fn as_str(self) -> (label: &'static str)
        ensures
            label@ == self.label(),
    {
        match self {
            SpanField::RequestEndpoint => "request.endpoint",
            SpanField::RequestRoutingKey => "request.routing_key",
            SpanField::RequestModelId => "request.model_id",
            SpanField::RequestPath => "request.path",
            SpanField::RequestInputTokens => "request.input_tokens",
            SpanField::RequestPriority => "request.priority",
            SpanField::RequestMaxWaitMs => "request.max_wait_ms",
            SpanField::RequestSloMs => "request.slo_ms",
            SpanField::RequestCacheAffinityKeyPresent => "request.cache_affinity_key_present",
            SpanField::RoutingRequestedAlgorithm => "routing.requested_algorithm",
            SpanField::RoutingInvalidRequestedAlgorithm => "routing.invalid_requested_algorithm",
            SpanField::SelectedClusterId => "selected_cluster.id",
            SpanField::SelectedInstId => "selected_inst.id",
            SpanField::SelectedInstOutputTps => "selected_inst.output_tps",
            SpanField::SelectedInstLastMeanInputTps => "selected_inst.last_mean_input_tps",
            SpanField::SelectedInstMaxOutputTps => "selected_inst.max_output_tps",
            SpanField::SelectedInstQueueSize => "selected_inst.queue_size",
            SpanField::SelectedInstQueuedInputSize => "selected_inst.queued_input_size",
            SpanField::SelectedInstNumRunningQueries => "selected_inst.num_running_queries",
            SpanField::SelectedInstMaxEngineConcurrency => "selected_inst.max_engine_concurrency",
            SpanField::SelectedInstTotalQueryInputSize => "selected_inst.total_query_input_size",
            SpanField::SelectedInstKvCacheCapacityTokens => "selected_inst.kv_cache_capacity_tokens",
            SpanField::SelectedInstKvCacheUsedTokens => "selected_inst.kv_cache_used_tokens",
            SpanField::SelectedInstKvCacheFreeTokens => "selected_inst.kv_cache_free_tokens",
            SpanField::SelectedInstRttMs => "selected_inst.rtt_ms",
            SpanField::SelectedInstSnapshotAgeMs => "selected_inst.snapshot_age_ms",
            SpanField::RoutingAlgorithm => "routing.algorithm",
            SpanField::RoutingNumCandidates => "routing.num_candidates",
            SpanField::RoutingSampleCountConfigured => "routing.sample_count_configured",
            SpanField::RoutingSampleCountEffective => "routing.sample_count_effective",
            SpanField::RoutingComparator => "routing.comparator",
            SpanField::RoutingComparatorScore => "routing.comparator.score",
            SpanField::RoutingComparatorQueueMs => "routing.comparator.queue_ms",
            SpanField::RoutingComparatorPrefillMs => "routing.comparator.prefill_ms",
            SpanField::RoutingComparatorRttMs => "routing.comparator.rtt_ms",
            SpanField::RoutingRankDepth => "routing.rank_depth",
            SpanField::RoutingSelectedAfterKvFreeTokensSkip =>
                "routing.selected_after_kv_free_tokens_skip",
            SpanField::RoutingRetryAttempts => "routing.retry_attempts",
            SpanField::RoutingAdmissionRejectionReason => "routing.admission_rejection_reason",
            SpanField::ProxyUpstreamStatus => "proxy.upstream_status",
            SpanField::ProxyTimeToFirstByteMs => "proxy.time_to_first_byte_ms",
            SpanField::ProxyAttempt => "proxy.attempt",
            SpanField::ProxyConnectAttempts => "proxy.connect_attempts",
            SpanField::ProxyRequestRetries => "proxy.request_retries",
            SpanField::ProxyFailedBackends => "proxy.failed_backends",
            SpanField::ProxyQueueExpectedMs => "proxy.queue.expected_ms",
            SpanField::ProxyRetryReason => "proxy.retry_reason",
            SpanField::ProxyReplayBodyBytes => "proxy.replay_body_bytes",
        }
    }
}

/// The value of a field.
pub enum FieldValue {
    Text(String),
    Number(u64),
    Signed(i64),
    Flag(bool),
    Fraction(Score),
}

/// The contents of a `FieldValue`.
pub enum FieldView {
    Text(Seq<char>),
    Number(u64),
    Signed(i64),
    Flag(bool),
    Fraction(Score),
}

impl View for FieldValue {
    type V = FieldView;

    open spec fn view(&self) -> FieldView {
        match *self {
            FieldValue::Text(text) => FieldView::Text(text@),
            FieldValue::Number(number) => FieldView::Number(number),
            FieldValue::Signed(number) => FieldView::Signed(number),
            FieldValue::Flag(flag) => FieldView::Flag(flag),
            FieldValue::Fraction(fraction) => FieldView::Fraction(fraction),
        }
    }
}

/// The contents of records.
pub open spec fn record_views(records: Seq<(SpanField, FieldValue)>) -> Seq<(SpanField, FieldView)> {
    Seq::new(records.len(), |i: int| (records[i].0, records[i].1@))
}

/// What is known of a request before it is routed.
pub struct RequestTraceFields<'a> {
    pub routing_key: Option<&'a str>,
    pub model_id: &'a str,
    pub request_path: &'a str,
    pub input_tokens: u64,
    pub priority: u32,
    pub max_wait_ms: Option<u64>,
    pub request_slo_ms: Option<u64>,
    pub cache_affinity_key_present: bool,
}

/// The contents of an optional text, empty where there is none.
pub open spec fn text_or_empty(text: Option<&str>) -> Seq<char> {
    match text {
        Some(text) => text@,
        None => ""@,
    }
}

/// A number, 0 where there is none.
pub open spec fn number_or_zero(number: Option<u64>) -> u64 {
    match number {
        Some(number) => number,
        None => 0,
    }
}

/// What is recorded of a request.
pub open spec fn request_record(fields: RequestTraceFields<'_>) -> Seq<(SpanField, FieldView)> {
    seq![
        (SpanField::RequestRoutingKey, FieldView::Text(text_or_empty(fields.routing_key))),
        (SpanField::RequestModelId, FieldView::Text(fields.model_id@)),
        (SpanField::RequestPath, FieldView::Text(fields.request_path@)),
        (SpanField::RequestInputTokens, FieldView::Number(fields.input_tokens)),
        (SpanField::RequestPriority, FieldView::Number(fields.priority as u64)),
        (SpanField::RequestMaxWaitMs, FieldView::Number(number_or_zero(fields.max_wait_ms))),
        (SpanField::RequestSloMs, FieldView::Number(number_or_zero(fields.request_slo_ms))),
        (
            SpanField::RequestCacheAffinityKeyPresent,
            FieldView::Flag(fields.cache_affinity_key_present),
        ),
    ]
}

fn owned_or_empty(text: Option<&str>) -> (owned: String)
    ensures
        owned@ == text_or_empty(text),
{
    match text {
        Some(text) => text.to_owned(),
        None => "".to_owned(),
    }
}

/// What is recorded of a request. What it does not say is empty or 0.
pub fn record_request_to_span(fields: RequestTraceFields<'_>) -> (records: Vec<
    (SpanField, FieldValue),
>)
    ensures
        record_views(records@) == request_record(fields),
{
    let records: Vec<(SpanField, FieldValue)> = vec![
        (SpanField::RequestRoutingKey, FieldValue::Text(owned_or_empty(fields.routing_key))),
        (SpanField::RequestModelId, FieldValue::Text(fields.model_id.to_owned())),
        (SpanField::RequestPath, FieldValue::Text(fields.request_path.to_owned())),
        (SpanField::RequestInputTokens, FieldValue::Number(fields.input_tokens)),
        (SpanField::RequestPriority, FieldValue::Number(fields.priority as u64)),
        (SpanField::RequestMaxWaitMs, FieldValue::Number(fields.max_wait_ms.unwrap_or(0))),
        (SpanField::RequestSloMs, FieldValue::Number(fields.request_slo_ms.unwrap_or(0))),
        (
            SpanField::RequestCacheAffinityKeyPresent,
            FieldValue::Flag(fields.cache_affinity_key_present),
        ),
    ];
    assert(record_views(records@) =~= request_record(fields));
    records
}

/// The statistics of the cluster that a request goes to.
#[derive(Clone, Copy, Debug, PartialEq, Eq, Structural)]
pub struct TracedStats {
    pub output_tps: Score,
    pub last_mean_input_tps: Score,
    pub max_output_tps: Score,
    pub queue_size: u64,
    pub queued_input_size: u64,
    pub num_running_queries: u64,
    pub max_engine_concurrency: u64,
    pub total_query_input_size: u64,
    pub kv_cache_capacity_tokens: u64,
    pub kv_cache_used_tokens: u64,
    pub kv_cache_free_tokens: u64,
    pub rtt_ms: Score,
    pub snapshot_age_ms: Score,
}

/// What is known of a request once it is routed.
pub struct RoutingTraceFields<'a> {
    pub routing_algorithm: &'a str,
    pub requested_algorithm: Option<&'a str>,
    pub num_candidates: usize,
    pub rank_depth: usize,
    pub selected_after_kv_free_tokens_skip: bool,
    pub comparator: Option<ClusterComparatorTrace>,
    pub cluster_id: &'a str,
    pub inference_server_id: &'a str,
    pub stats: TracedStats,
}

/// A number as a signed one. One too large for that wraps round to a negative one.
pub open spec fn signed(number: usize) -> i64 {
    if number <= i64::MAX {
        number as i64
    } else {
        (number - 0x1_0000_0000_0000_0000) as i64
    }
}

fn as_signed(number: usize) -> (converted: i64)
    ensures
        converted == signed(number),
{
    assert(number > 0x7fff_ffff_ffff_ffff ==> number as i64 == number - 0x1_0000_0000_0000_0000)
        by (bit_vector);
    number as i64
}

/// What is recorded of a sample of clusters: how many were asked for, and how many it has.
pub open spec fn sample_record(configured: usize, effective: usize) -> Seq<(SpanField, FieldView)> {
    seq![
        (SpanField::RoutingSampleCountConfigured, FieldView::Number(configured as u64)),
        (SpanField::RoutingSampleCountEffective, FieldView::Number(effective as u64)),
    ]
}

/// What is recorded of a sample of clusters.
pub fn record_sample_to_span(configured: usize, effective: usize) -> (records: Vec<
    (SpanField, FieldValue),
>)
    ensures
        record_views(records@) == sample_record(configured, effective),
{
    let records: Vec<(SpanField, FieldValue)> = vec![
        (SpanField::RoutingSampleCountConfigured, FieldValue::Number(configured as u64)),
        (SpanField::RoutingSampleCountEffective, FieldValue::Number(effective as u64)),
    ];
    assert(record_views(records@) =~= sample_record(configured, effective));
    records
}

/// What is recorded of the choice of a cluster, apart from how clusters were compared.
pub open spec fn choice_record(routing: RoutingTraceFields<'_>) -> Seq<(SpanField, FieldView)> {
    let stats = routing.stats;
    seq![
        (SpanField::RoutingAlgorithm, FieldView::Text(routing.routing_algorithm@)),
        (
            SpanField::RoutingRequestedAlgorithm,
            FieldView::Text(text_or_empty(routing.requested_algorithm)),
        ),
        (SpanField::RoutingNumCandidates, FieldView::Number(routing.num_candidates as u64)),
        (SpanField::RoutingRankDepth, FieldView::Signed(signed(routing.rank_depth))),
        (
            SpanField::RoutingSelectedAfterKvFreeTokensSkip,
            FieldView::Flag(routing.selected_after_kv_free_tokens_skip),
        ),
        (SpanField::SelectedClusterId, FieldView::Text(routing.cluster_id@)),
        (SpanField::SelectedInstId, FieldView::Text(routing.inference_server_id@)),
        (SpanField::SelectedInstOutputTps, FieldView::Fraction(stats.output_tps)),
        (SpanField::SelectedInstLastMeanInputTps, FieldView::Fraction(stats.last_mean_input_tps)),
        (SpanField::SelectedInstMaxOutputTps, FieldView::Fraction(stats.max_output_tps)),
        (SpanField::SelectedInstQueueSize, FieldView::Number(stats.queue_size)),
        (SpanField::SelectedInstQueuedInputSize, FieldView::Number(stats.queued_input_size)),
        (SpanField::SelectedInstNumRunningQueries, FieldView::Number(stats.num_running_queries)),
        (
            SpanField::SelectedInstMaxEngineConcurrency,
            FieldView::Number(stats.max_engine_concurrency),
        ),
        (
            SpanField::SelectedInstTotalQueryInputSize,
            FieldView::Number(stats.total_query_input_size),
        ),
        (
            SpanField::SelectedInstKvCacheCapacityTokens,
            FieldView::Number(stats.kv_cache_capacity_tokens),
        ),
        (SpanField::SelectedInstKvCacheUsedTokens, FieldView::Number(stats.kv_cache_used_tokens)),
        (SpanField::SelectedInstKvCacheFreeTokens, FieldView::Number(stats.kv_cache_free_tokens)),
        (SpanField::SelectedInstRttMs, FieldView::Fraction(stats.rtt_ms)),
        (SpanField::SelectedInstSnapshotAgeMs, FieldView::Fraction(stats.snapshot_age_ms)),
    ]
}

/// The record of a score that may not be known.
pub open spec fn optional_score(field: SpanField, score: Option<Score>) -> Seq<
    (SpanField, FieldView),
> {
    match score {
        Some(score) => seq![(field, FieldView::Fraction(score))],
        None => Seq::empty(),
    }
}

/// What is recorded of how clusters were compared.
pub open spec fn comparison_record(comparator: Option<ClusterComparatorTrace>) -> Seq<
    (SpanField, FieldView),
> {
    match comparator {
        None => Seq::empty(),
        Some(trace) => seq![
            (SpanField::RoutingComparator, FieldView::Text(trace.comparator.label())),
            (SpanField::RoutingComparatorScore, FieldView::Fraction(trace.score)),
        ] + optional_score(SpanField::RoutingComparatorQueueMs, trace.queue_ms) + optional_score(
            SpanField::RoutingComparatorPrefillMs,
            trace.prefill_ms,
        ) + optional_score(SpanField::RoutingComparatorRttMs, trace.rtt_ms),
    }
}

/// What is recorded of the choice of a cluster, and of how clusters were compared as far as they
/// were.
pub fn record_routing_to_span(routing: RoutingTraceFields<'_>) -> (records: Vec<
    (SpanField, FieldValue),
>)
    ensures
        record_views(records@) == choice_record(routing) + comparison_record(routing.comparator),
{
    let stats: TracedStats = routing.stats;
    let mut records: Vec<(SpanField, FieldValue)> = vec![
        (SpanField::RoutingAlgorithm, FieldValue::Text(routing.routing_algorithm.to_owned())),
        (
            SpanField::RoutingRequestedAlgorithm,
            FieldValue::Text(owned_or_empty(routing.requested_algorithm)),
        ),
        (SpanField::RoutingNumCandidates, FieldValue::Number(routing.num_candidates as u64)),
        (SpanField::RoutingRankDepth, FieldValue::Signed(as_signed(routing.rank_depth))),
        (
            SpanField::RoutingSelectedAfterKvFreeTokensSkip,
            FieldValue::Flag(routing.selected_after_kv_free_tokens_skip),
        ),
        (SpanField::SelectedClusterId, FieldValue::Text(routing.cluster_id.to_owned())),
        (SpanField::SelectedInstId, FieldValue::Text(routing.inference_server_id.to_owned())),
        (SpanField::SelectedInstOutputTps, FieldValue::Fraction(stats.output_tps)),
        (SpanField::SelectedInstLastMeanInputTps, FieldValue::Fraction(stats.last_mean_input_tps)),
        (SpanField::SelectedInstMaxOutputTps, FieldValue::Fraction(stats.max_output_tps)),
        (SpanField::SelectedInstQueueSize, FieldValue::Number(stats.queue_size)),
        (SpanField::SelectedInstQueuedInputSize, FieldValue::Number(stats.queued_input_size)),
        (SpanField::SelectedInstNumRunningQueries, FieldValue::Number(stats.num_running_queries)),
        (
            SpanField::SelectedInstMaxEngineConcurrency,
            FieldValue::Number(stats.max_engine_concurrency),
        ),
        (
            SpanField::SelectedInstTotalQueryInputSize,
            FieldValue::Number(stats.total_query_input_size),
        ),
        (
            SpanField::SelectedInstKvCacheCapacityTokens,
            FieldValue::Number(stats.kv_cache_capacity_tokens),
        ),
        (SpanField::SelectedInstKvCacheUsedTokens, FieldValue::Number(stats.kv_cache_used_tokens)),
        (SpanField::SelectedInstKvCacheFreeTokens, FieldValue::Number(stats.kv_cache_free_tokens)),
        (SpanField::SelectedInstRttMs, FieldValue::Fraction(stats.rtt_ms)),
        (SpanField::SelectedInstSnapshotAgeMs, FieldValue::Fraction(stats.snapshot_age_ms)),
    ];
    assert(record_views(records@) =~= choice_record(routing));
    match routing.comparator {
        None => {},
        Some(trace) => {
            records.push(
                (
                    SpanField::RoutingComparator,
                    FieldValue::Text(trace.comparator.as_str().to_owned()),
                ),
            );
            records.push((SpanField::RoutingComparatorScore, FieldValue::Fraction(trace.score)));
            match trace.queue_ms {
                Some(score) => records.push(
                    (SpanField::RoutingComparatorQueueMs, FieldValue::Fraction(score)),
                ),
                None => {},
            }
            match trace.prefill_ms {
                Some(score) => records.push(
                    (SpanField::RoutingComparatorPrefillMs, FieldValue::Fraction(score)),
                ),
                None => {},
            }
            match trace.rtt_ms {
                Some(score) => records.push(
                    (SpanField::RoutingComparatorRttMs, FieldValue::Fraction(score)),
                ),
                None => {},
            }
        },
    }
    assert(record_views(records@) =~= choice_record(routing) + comparison_record(
        routing.comparator,
    ));
    records
}

/// A request records its own fields and a choice the others, so neither overwrites the other.
pub proof fn requests_and_choices_record_different_fields(
    fields: RequestTraceFields<'_>,
    routing: RoutingTraceFields<'_>,
    i: int,
    j: int,
)
    requires
        0 <= i < request_record(fields).len(),
        0 <= j < (choice_record(routing) + comparison_record(routing.comparator)).len(),
    ensures
        request_record(fields)[i].0 != (choice_record(routing) + comparison_record(
            routing.comparator,
        ))[j].0,
{
}

/// Whether a field is recorded once, with a value.
pub open spec fn records_once(
    records: Seq<(SpanField, FieldView)>,
    field: SpanField,
    value: FieldView,
) -> bool {
    &&& records.contains((field, value))
    &&& forall|i: int, j: int|
        0 <= i < j < records.len() ==> !((#[trigger] records[i]).0 == field && (
        #[trigger] records[j]).0 == field)
}

/// Every part of a request is recorded once, under its own name; what is left out is recorded as
/// nothing.
pub proof fn every_part_of_a_request_is_recorded(
    fields: RequestTraceFields<'_>,
    records: Vec<(SpanField, FieldValue)>,
)
    requires
        call_ensures(record_request_to_span, (fields,), records),
    ensures
        ({
            let said = record_views(records@);
            &&& fields.routing_key is Some ==> records_once(
                said,
                SpanField::RequestRoutingKey,
                FieldView::Text(fields.routing_key->0@),
            )
            &&& fields.routing_key is None ==> records_once(
                said,
                SpanField::RequestRoutingKey,
                FieldView::Text(""@),
            )
            &&& records_once(said, SpanField::RequestModelId, FieldView::Text(fields.model_id@))
            &&& records_once(said, SpanField::RequestPath, FieldView::Text(fields.request_path@))
            &&& records_once(
                said,
                SpanField::RequestInputTokens,
                FieldView::Number(fields.input_tokens),
            )
            &&& records_once(
                said,
                SpanField::RequestPriority,
                FieldView::Number(fields.priority as u64),
            )
            &&& fields.max_wait_ms is Some ==> records_once(
                said,
                SpanField::RequestMaxWaitMs,
                FieldView::Number(fields.max_wait_ms->0),
            )
            &&& fields.max_wait_ms is None ==> records_once(
                said,
                SpanField::RequestMaxWaitMs,
                FieldView::Number(0),
            )
            &&& fields.request_slo_ms is Some ==> records_once(
                said,
                SpanField::RequestSloMs,
                FieldView::Number(fields.request_slo_ms->0),
            )
            &&& fields.request_slo_ms is None ==> records_once(
                said,
                SpanField::RequestSloMs,
                FieldView::Number(0),
            )
            &&& records_once(
                said,
                SpanField::RequestCacheAffinityKeyPresent,
                FieldView::Flag(fields.cache_affinity_key_present),
            )
            &&& said.len() == 8
        }),
{
    let said = record_views(records@);
    assert(said == request_record(fields));
    assert(said[0].0 is RequestRoutingKey && said[1].0 is RequestModelId && said[2].0 is RequestPath
        && said[3].0 is RequestInputTokens && said[4].0 is RequestPriority && said[5].0
        is RequestMaxWaitMs && said[6].0 is RequestSloMs && said[7].0
        is RequestCacheAffinityKeyPresent);
    assert(said.contains(said[0]) && said.contains(said[1]) && said.contains(said[2])
        && said.contains(said[3]) && said.contains(said[4]) && said.contains(said[5])
        && said.contains(said[6]) && said.contains(said[7]));
}

/// The comparison by which a cluster was chosen is recorded, with the parts that it has and no others.
pub proof fn comparisons_are_recorded_with_their_parts(
    routing: RoutingTraceFields<'_>,
    records: Vec<(SpanField, FieldValue)>,
    score: Score,
)
    requires
        call_ensures(record_routing_to_span, (routing,), records),
    ensures
        ({
            let said = record_views(records@);
            let trace = routing.comparator;
            &&& trace is Some ==> said.contains(
                (SpanField::RoutingComparatorScore, FieldView::Fraction(trace->0.score)),
            ) && said.contains(
                (SpanField::RoutingComparator, FieldView::Text(trace->0.comparator.label())),
            )
            &&& said.contains((SpanField::RoutingComparatorQueueMs, FieldView::Fraction(score)))
                <==> trace is Some && trace->0.queue_ms == Some(score)
            &&& said.contains((SpanField::RoutingComparatorPrefillMs, FieldView::Fraction(score)))
                <==> trace is Some && trace->0.prefill_ms == Some(score)
            &&& said.contains((SpanField::RoutingComparatorRttMs, FieldView::Fraction(score)))
                <==> trace is Some && trace->0.rtt_ms == Some(score)
            &&& trace is None ==> said.len() == 20
        }),
{
    let said = record_views(records@);
    let choice = choice_record(routing);
    let rest = comparison_record(routing.comparator);
    assert(said == choice + rest);
    assert forall|i: int| 0 <= i < choice.len() implies !((#[trigger] choice[i]).0
        is RoutingComparatorQueueMs) && !(choice[i].0 is RoutingComparatorPrefillMs) && !(choice[i].0
        is RoutingComparatorRttMs) by {}
    if let Some(trace) = routing.comparator {
        let head = seq![
            (SpanField::RoutingComparator, FieldView::Text(trace.comparator.label())),
            (SpanField::RoutingComparatorScore, FieldView::Fraction(trace.score)),
        ];
        let queue = optional_score(SpanField::RoutingComparatorQueueMs, trace.queue_ms);
        let prefill = optional_score(SpanField::RoutingComparatorPrefillMs, trace.prefill_ms);
        let rtt = optional_score(SpanField::RoutingComparatorRttMs, trace.rtt_ms);
        assert(rest == head + queue + prefill + rtt);
        assert(said[20] == head[0] && said[21] == head[1]);
        if trace.queue_ms is Some {
            assert(said[22] == queue[0]);
        }
        if trace.prefill_ms is Some {
            assert(said[22 + queue.len() as int] == prefill[0]);
        }
        if trace.rtt_ms is Some {
            assert(said[22 + queue.len() as int + prefill.len() as int] == rtt[0]);
        }
        assert forall|i: int| 0 <= i < said.len() implies {
            &&& (#[trigger] said[i]).0 is RoutingComparatorQueueMs ==> queue.len() == 1 && said[i]
                == queue[0]
            &&& said[i].0 is RoutingComparatorPrefillMs ==> prefill.len() == 1 && said[i]
                == prefill[0]
            &&& said[i].0 is RoutingComparatorRttMs ==> rtt.len() == 1 && said[i] == rtt[0]
        } by {
            if i < 20 {
                assert(said[i] == choice[i]);
            } else {
                assert(said[i] == rest[i - 20]);
            }
        }
    }
}

/// Every number of the chosen cluster is recorded under its own name, and nothing else is recorded
/// under that name. An algorithm that was not asked for is recorded as empty.
pub proof fn every_part_of_a_choice_is_recorded(
    routing: RoutingTraceFields<'_>,
    records: Vec<(SpanField, FieldValue)>,
    value: FieldView,
)
    requires
        call_ensures(record_routing_to_span, (routing,), records),
    ensures
        ({
            let said = record_views(records@);
            let stats = routing.stats;
            &&& value == FieldView::Text(routing.routing_algorithm@) <==> said.contains((SpanField::RoutingAlgorithm, value))
            &&& value == FieldView::Number(routing.num_candidates as u64) <==> said.contains((SpanField::RoutingNumCandidates, value))
            &&& value == FieldView::Flag(routing.selected_after_kv_free_tokens_skip) <==> said.contains((SpanField::RoutingSelectedAfterKvFreeTokensSkip, value))
            &&& value == FieldView::Text(routing.cluster_id@) <==> said.contains((SpanField::SelectedClusterId, value))
            &&& value == FieldView::Text(routing.inference_server_id@) <==> said.contains((SpanField::SelectedInstId, value))
            &&& value == FieldView::Fraction(stats.output_tps) <==> said.contains((SpanField::SelectedInstOutputTps, value))
            &&& value == FieldView::Fraction(stats.last_mean_input_tps) <==> said.contains((SpanField::SelectedInstLastMeanInputTps, value))
            &&& value == FieldView::Fraction(stats.max_output_tps) <==> said.contains((SpanField::SelectedInstMaxOutputTps, value))
            &&& value == FieldView::Number(stats.queue_size) <==> said.contains((SpanField::SelectedInstQueueSize, value))
            &&& value == FieldView::Number(stats.queued_input_size) <==> said.contains((SpanField::SelectedInstQueuedInputSize, value))
            &&& value == FieldView::Number(stats.num_running_queries) <==> said.contains((SpanField::SelectedInstNumRunningQueries, value))
            &&& value == FieldView::Number(stats.max_engine_concurrency) <==> said.contains((SpanField::SelectedInstMaxEngineConcurrency, value))
            &&& value == FieldView::Number(stats.total_query_input_size) <==> said.contains((SpanField::SelectedInstTotalQueryInputSize, value))
            &&& value == FieldView::Number(stats.kv_cache_capacity_tokens) <==> said.contains((SpanField::SelectedInstKvCacheCapacityTokens, value))
            &&& value == FieldView::Number(stats.kv_cache_used_tokens) <==> said.contains((SpanField::SelectedInstKvCacheUsedTokens, value))
            &&& value == FieldView::Number(stats.kv_cache_free_tokens) <==> said.contains((SpanField::SelectedInstKvCacheFreeTokens, value))
            &&& value == FieldView::Fraction(stats.rtt_ms) <==> said.contains((SpanField::SelectedInstRttMs, value))
            &&& value == FieldView::Fraction(stats.snapshot_age_ms) <==> said.contains((SpanField::SelectedInstSnapshotAgeMs, value))
            &&& routing.requested_algorithm is Some ==> said.contains(
                (
                    SpanField::RoutingRequestedAlgorithm,
                    FieldView::Text(routing.requested_algorithm->0@),
                ),
            )
            &&& routing.requested_algorithm is None ==> said.contains(
                (SpanField::RoutingRequestedAlgorithm, FieldView::Text(""@)),
            )
            &&& routing.rank_depth <= i64::MAX ==> said.contains(
                (SpanField::RoutingRankDepth, FieldView::Signed(routing.rank_depth as i64)),
            )
        }),
{
    let said = record_views(records@);
    let choice = choice_record(routing);
    let rest = comparison_record(routing.comparator);
    assert(said == choice + rest);
    assert forall|i: int| 0 <= i < choice.len() implies said[i] == #[trigger] choice[i] by {}
    assert forall|i: int| 20 <= i < said.len() implies (#[trigger] said[i]).0 is RoutingComparator
        || said[i].0 is RoutingComparatorScore || said[i].0 is RoutingComparatorQueueMs
        || said[i].0 is RoutingComparatorPrefillMs || said[i].0 is RoutingComparatorRttMs by {
        lemma_comparison_fields(routing.comparator);
        assert(said[i] == rest[i - 20]);
    }
    lemma_choice_places(routing, said, value);
    assert(choice[0].0 is RoutingAlgorithm);
    assert(choice[1].0 is RoutingRequestedAlgorithm);
    assert(choice[2].0 is RoutingNumCandidates);
    assert(choice[3].0 is RoutingRankDepth);
    assert(choice[4].0 is RoutingSelectedAfterKvFreeTokensSkip);
    assert(choice[5].0 is SelectedClusterId);
    assert(choice[6].0 is SelectedInstId);
    assert(choice[7].0 is SelectedInstOutputTps);
    assert(choice[8].0 is SelectedInstLastMeanInputTps);
    assert(choice[9].0 is SelectedInstMaxOutputTps);
    assert(choice[10].0 is SelectedInstQueueSize);
    assert(choice[11].0 is SelectedInstQueuedInputSize);
    assert(choice[12].0 is SelectedInstNumRunningQueries);
    assert(choice[13].0 is SelectedInstMaxEngineConcurrency);
    assert(choice[14].0 is SelectedInstTotalQueryInputSize);
    assert(choice[15].0 is SelectedInstKvCacheCapacityTokens);
    assert(choice[16].0 is SelectedInstKvCacheUsedTokens);
    assert(choice[17].0 is SelectedInstKvCacheFreeTokens);
    assert(choice[18].0 is SelectedInstRttMs);
    assert(choice[19].0 is SelectedInstSnapshotAgeMs);
    assert(said.contains(said[1]) && said.contains(said[3]));
}

proof fn lemma_comparison_fields(comparator: Option<ClusterComparatorTrace>)
    ensures
        forall|i: int|
            0 <= i < comparison_record(comparator).len() ==> {
                let field = (#[trigger] comparison_record(comparator)[i]).0;
                field is RoutingComparator || field is RoutingComparatorScore || field
                    is RoutingComparatorQueueMs || field is RoutingComparatorPrefillMs || field
                    is RoutingComparatorRttMs
            },
{
}

proof fn lemma_choice_places(
    routing: RoutingTraceFields<'_>,
    said: Seq<(SpanField, FieldView)>,
    value: FieldView,
)
    requires
        said.len() >= 20,
        forall|i: int| 0 <= i < 20 ==> #[trigger] said[i] == choice_record(routing)[i],
        forall|i: int|
            20 <= i < said.len() ==> (#[trigger] said[i]).0 is RoutingComparator || said[i].0
                is RoutingComparatorScore || said[i].0 is RoutingComparatorQueueMs || said[i].0
                is RoutingComparatorPrefillMs || said[i].0 is RoutingComparatorRttMs,
    ensures
        forall|place: int|
            0 <= place < 20 ==> (said.contains(((#[trigger] choice_record(routing)[place]).0, value))
                <==> value == choice_record(routing)[place].1),
{
    let choice = choice_record(routing);
    assert(choice[0].0 is RoutingAlgorithm);
    assert(choice[1].0 is RoutingRequestedAlgorithm);
    assert(choice[2].0 is RoutingNumCandidates);
    assert(choice[3].0 is RoutingRankDepth);
    assert(choice[4].0 is RoutingSelectedAfterKvFreeTokensSkip);
    assert(choice[5].0 is SelectedClusterId);
    assert(choice[6].0 is SelectedInstId);
    assert(choice[7].0 is SelectedInstOutputTps);
    assert(choice[8].0 is SelectedInstLastMeanInputTps);
    assert(choice[9].0 is SelectedInstMaxOutputTps);
    assert(choice[10].0 is SelectedInstQueueSize);
    assert(choice[11].0 is SelectedInstQueuedInputSize);
    assert(choice[12].0 is SelectedInstNumRunningQueries);
    assert(choice[13].0 is SelectedInstMaxEngineConcurrency);
    assert(choice[14].0 is SelectedInstTotalQueryInputSize);
    assert(choice[15].0 is SelectedInstKvCacheCapacityTokens);
    assert(choice[16].0 is SelectedInstKvCacheUsedTokens);
    assert(choice[17].0 is SelectedInstKvCacheFreeTokens);
    assert(choice[18].0 is SelectedInstRttMs);
    assert(choice[19].0 is SelectedInstSnapshotAgeMs);
    assert forall|i: int, j: int| 0 <= i < j < 20 implies (#[trigger] choice[i]).0 != (
    #[trigger] choice[j]).0 by {}
    assert forall|place: int| 0 <= place < 20 implies (said.contains(
        ((#[trigger] choice[place]).0, value),
    ) <==> value == choice[place].1) by {
        if said.contains((choice[place].0, value)) {
            let i = choose|i: int| 0 <= i < said.len() && said[i] == (choice[place].0, value);
            if i < 20 {
                assert(said[i] == choice[i]);
            }
        }
        assert(said[place] == choice[place]);
    }
}

/// A sample is recorded with how many are configured and how many are taken, and a depth that a signed
/// number holds as it is.
pub proof fn sample_counts_are_recorded(
    configured: usize,
    effective: usize,
    records: Vec<(SpanField, FieldValue)>,
)
    requires
        call_ensures(record_sample_to_span, (configured, effective), records),
    ensures
        record_views(records@).len() == 2,
        record_views(records@)[0] == (
            SpanField::RoutingSampleCountConfigured,
            FieldView::Number(configured as u64),
        ),
        record_views(records@)[1] == (
            SpanField::RoutingSampleCountEffective,
            FieldView::Number(effective as u64),
        ),
{
}

/// The names under which fields are recorded: what was asked, where the request was routed, which
/// instance was selected, and how it was forwarded.
pub proof fn fields_are_recorded_under_their_names(field: SpanField, label: &'static str)
    requires
        call_ensures(SpanField::as_str, (field,), label),
    ensures
        field is RequestEndpoint ==> label@ == "request.endpoint"@,
        field is RequestRoutingKey ==> label@ == "request.routing_key"@,
        field is RequestModelId ==> label@ == "request.model_id"@,
        field is RequestPath ==> label@ == "request.path"@,
        field is RequestInputTokens ==> label@ == "request.input_tokens"@,
        field is RequestPriority ==> label@ == "request.priority"@,
        field is RequestMaxWaitMs ==> label@ == "request.max_wait_ms"@,
        field is RequestSloMs ==> label@ == "request.slo_ms"@,
        field is RequestCacheAffinityKeyPresent ==> label@ == "request.cache_affinity_key_present"@,
        field is RoutingRequestedAlgorithm ==> label@ == "routing.requested_algorithm"@,
        field is RoutingInvalidRequestedAlgorithm ==> label@ == "routing.invalid_requested_algorithm"@,
        field is SelectedClusterId ==> label@ == "selected_cluster.id"@,
        field is SelectedInstId ==> label@ == "selected_inst.id"@,
        field is SelectedInstOutputTps ==> label@ == "selected_inst.output_tps"@,
        field is SelectedInstLastMeanInputTps ==> label@ == "selected_inst.last_mean_input_tps"@,
        field is SelectedInstMaxOutputTps ==> label@ == "selected_inst.max_output_tps"@,
        field is SelectedInstQueueSize ==> label@ == "selected_inst.queue_size"@,
        field is SelectedInstQueuedInputSize ==> label@ == "selected_inst.queued_input_size"@,
        field is SelectedInstNumRunningQueries ==> label@ == "selected_inst.num_running_queries"@,
        field is SelectedInstMaxEngineConcurrency ==> label@ == "selected_inst.max_engine_concurrency"@,
        field is SelectedInstTotalQueryInputSize ==> label@ == "selected_inst.total_query_input_size"@,
        field is SelectedInstKvCacheCapacityTokens ==> label@ == "selected_inst.kv_cache_capacity_tokens"@,
        field is SelectedInstKvCacheUsedTokens ==> label@ == "selected_inst.kv_cache_used_tokens"@,
        field is SelectedInstKvCacheFreeTokens ==> label@ == "selected_inst.kv_cache_free_tokens"@,
        field is SelectedInstRttMs ==> label@ == "selected_inst.rtt_ms"@,
        field is SelectedInstSnapshotAgeMs ==> label@ == "selected_inst.snapshot_age_ms"@,
        field is RoutingAlgorithm ==> label@ == "routing.algorithm"@,
        field is RoutingNumCandidates ==> label@ == "routing.num_candidates"@,
        field is RoutingSampleCountConfigured ==> label@ == "routing.sample_count_configured"@,
        field is RoutingSampleCountEffective ==> label@ == "routing.sample_count_effective"@,
        field is RoutingComparator ==> label@ == "routing.comparator"@,
        field is RoutingComparatorScore ==> label@ == "routing.comparator.score"@,
        field is RoutingComparatorQueueMs ==> label@ == "routing.comparator.queue_ms"@,
        field is RoutingComparatorPrefillMs ==> label@ == "routing.comparator.prefill_ms"@,
        field is RoutingComparatorRttMs ==> label@ == "routing.comparator.rtt_ms"@,
        field is RoutingRankDepth ==> label@ == "routing.rank_depth"@,
        field is RoutingSelectedAfterKvFreeTokensSkip ==> label@ == "routing.selected_after_kv_free_tokens_skip"@,
        field is RoutingRetryAttempts ==> label@ == "routing.retry_attempts"@,
        field is RoutingAdmissionRejectionReason ==> label@ == "routing.admission_rejection_reason"@,
        field is ProxyUpstreamStatus ==> label@ == "proxy.upstream_status"@,
        field is ProxyTimeToFirstByteMs ==> label@ == "proxy.time_to_first_byte_ms"@,
        field is ProxyAttempt ==> label@ == "proxy.attempt"@,
        field is ProxyConnectAttempts ==> label@ == "proxy.connect_attempts"@,
        field is ProxyRequestRetries ==> label@ == "proxy.request_retries"@,
        field is ProxyFailedBackends ==> label@ == "proxy.failed_backends"@,
        field is ProxyQueueExpectedMs ==> label@ == "proxy.queue.expected_ms"@,
        field is ProxyRetryReason ==> label@ == "proxy.retry_reason"@,
        field is ProxyReplayBodyBytes ==> label@ == "proxy.replay_body_bytes"@,
{
}

} // verus!
