//! The metrics of a pylon.

use super::family::{
    add_to_counter, all_registrable, can_export, counted, counted_up, counter_contents,
    counter_description, counter_home, counter_labelled, counter_samples, counter_sum,
    counts_are_shown, export_text, gauge_contents, gauge_description, gauge_home, gauge_labelled,
    gauge_moved, gauge_samples, gauge_set, gauge_sum, gauged, has_line, holds_exactly, is_export,
    is_registrable, label_texts, move_gauge, new_counter_family, new_gauge_family, new_registry,
    no_counters, no_gauges, registry_families, registry_mark, remove_gauge, sample_key,
    sample_line, set_gauge, share_registry, CounterFamily, GaugeFamily, MetricsError,
};
use super::pylon_families::{
    counter_places_are_distinct, gauge_places_are_distinct, Descriptor, PylonCounter,
    PylonFloatGauge, PylonGauge, PylonHistogram,
};
use super::router::reloads_at_zero;
use crate::load_balancer::score::Score;
use crate::text::texts;
use crate::tls::identity::unix_seconds_now;
use crate::tls::rotation::{expiry_ready, identity_is_ready, NO_EXPIRY};
use vstd::prelude::*;

verus! {

/// The samples of all families of counters and gauges, whether the identity was validated once,
/// the expiry that readiness goes by, the registry that the families are exported through, by its
/// mark, and whether others have a handle on it.
#[verifier::ext_equal]
pub struct PylonSamples {
    pub counters: Map<PylonCounter, Map<u64, (Seq<Seq<char>>, u64)>>,
    pub gauges: Map<PylonGauge, Map<u64, (Seq<Seq<char>>, i64)>>,
    pub identity_validated: bool,
    pub identity_not_after: i64,
    pub registry: int,
    pub shared: bool,
}

impl PylonSamples {
    /// The samples after a counter went up.
    pub open spec fn count(self, family: PylonCounter, labels: Seq<Seq<char>>, by: u64) -> Self {
        PylonSamples {
            counters: self.counters.insert(
                family,
                counted_up(self.counters[family], labels, by),
            ),
            ..self
        }
    }

    /// The samples after a gauge was set.
    pub open spec fn set(self, family: PylonGauge, labels: Seq<Seq<char>>, value: i64) -> Self {
        PylonSamples {
            gauges: self.gauges.insert(family, gauge_set(self.gauges[family], labels, value)),
            ..self
        }
    }

    /// The samples after a gauge was moved.
    pub open spec fn moved(self, family: PylonGauge, labels: Seq<Seq<char>>, by: i64) -> Self {
        PylonSamples {
            gauges: self.gauges.insert(family, gauge_moved(self.gauges[family], labels, by)),
            ..self
        }
    }

    /// The samples after a gauge was removed.
    pub open spec fn without(self, family: PylonGauge, labels: Seq<Seq<char>>) -> Self {
        PylonSamples {
            gauges: self.gauges.insert(family, self.gauges[family].remove(sample_key(labels))),
            ..self
        }
    }
}

/// The metrics of a pylon. Gauges that hold fractions, and histograms, are kept by the caller,
/// who is told what to do with them.
pub struct PylonMetrics {
    registry: prometheus::Registry,
    counters: Vec<CounterFamily>,
    gauges: Vec<GaugeFamily>,
    tls_initial_validation_complete: bool,
    tls_identity_not_after: i64,
}

impl View for PylonMetrics {
    type V = PylonSamples;

    closed spec fn view(&self) -> PylonSamples {
        PylonSamples {
            counters: Map::new(
                |family: PylonCounter| true,
                |family: PylonCounter| counter_samples(self.counters@[family.place()]),
            ),
            gauges: Map::new(
                |family: PylonGauge| true,
                |family: PylonGauge| gauge_samples(self.gauges@[family.place()]),
            ),
            identity_validated: self.tls_initial_validation_complete,
            identity_not_after: self.tls_identity_not_after,
            registry: registry_mark(self.registry),
            shared: registry_families(self.registry) is None,
        }
    }
}

/// The samples of a pylon that has counted nothing yet: the reload counters stand at 0, the expiry
/// that is shown is 0, no identity was validated, and there is no expiry to go by.
pub open spec fn initial_samples(registry: int) -> PylonSamples {
    let counters = Map::new(|family: PylonCounter| true, |family: PylonCounter| no_counters());
    let gauges = Map::new(|family: PylonGauge| true, |family: PylonGauge| no_gauges());
    PylonSamples {
        counters: counters.insert(PylonCounter::TlsReloads, reloads_at_zero(no_counters())),
        gauges,
        identity_validated: false,
        identity_not_after: NO_EXPIRY,
        registry,
        shared: false,
    }.set(PylonGauge::TlsCertificateExpiry, seq!["server_identity"@], 0)
}

/// How far a request has come.
#[derive(Clone, Copy, Debug, PartialEq, Eq, Structural)]
pub enum RequestObservationState {
    Queued,
    UpstreamConnecting,
    InputProcessing,
    OutputGeneration,
    Complete,
    Failed,
    Cancelled,
}

/// The label of a state.
pub open spec fn state_label(state: RequestObservationState) -> Seq<char> {
    match state {
        RequestObservationState::Queued => "queued"@,
        RequestObservationState::UpstreamConnecting => "upstream_connecting"@,
        RequestObservationState::InputProcessing => "input_processing"@,
        RequestObservationState::OutputGeneration => "output_generation"@,
        RequestObservationState::Complete => "complete"@,
        RequestObservationState::Failed => "failed"@,
        RequestObservationState::Cancelled => "cancelled"@,
    }
}

/// The label of a state.
pub fn request_state_label(state: RequestObservationState) -> (label: &'static str)
    ensures
        label@ == state_label(state),
{
    match state {
        RequestObservationState::Queued => "queued",
        RequestObservationState::UpstreamConnecting => "upstream_connecting",
        RequestObservationState::InputProcessing => "input_processing",
        RequestObservationState::OutputGeneration => "output_generation",
        RequestObservationState::Complete => "complete",
        RequestObservationState::Failed => "failed",
        RequestObservationState::Cancelled => "cancelled",
    }
}

/// Whether a request in this state is over.
pub open spec fn is_over(state: RequestObservationState) -> bool {
    state is Complete || state is Failed || state is Cancelled
}

/// How a calibration ended.
#[derive(Clone, Copy, Debug, PartialEq, Eq, Structural)]
pub enum CalibrationOutcome {
    Completed,
    Error,
    Cancelled,
}

impl CalibrationOutcome {
    /// The label of the outcome.
    pub open spec fn label(self) -> Seq<char> {
        match self {
            CalibrationOutcome::Completed => "completed"@,
            CalibrationOutcome::Error => "error"@,
            CalibrationOutcome::Cancelled => "cancelled"@,
        }
    }

    /// The label of the outcome.
    pub fn as_str(self) -> (label: &'static str)
        ensures
            label@ == self.label(),
    {
        match self {
            CalibrationOutcome::Completed => "completed",
            CalibrationOutcome::Error => "error",
            CalibrationOutcome::Cancelled => "cancelled",
        }
    }
}

/// Whether a model takes requests.
#[derive(Clone, Copy, Debug, PartialEq, Eq, Structural)]
pub enum InferenceServerStatus {
    Unknown,
    Active,
    Inactive,
}

/// A number as large as a gauge can show.
pub open spec fn saturated(value: int) -> i64 {
    if value > i64::MAX {
        i64::MAX
    } else {
        value as i64
    }
}

/// A number as large as a gauge can show: too large a number shows as the largest.
pub fn saturating_i64(value: u128) -> (shown: i64)
    ensures
        shown == saturated(value as int),
{
    if value > i64::MAX as u128 {
        i64::MAX
    } else {
        value as i64
    }
}

/// A length of time.
#[derive(Clone, Copy, Debug, PartialEq, Eq, Structural)]
pub struct TimeSpan {
    pub seconds: u64,
    pub nanos: u32,
}

/// A request as it was observed.
pub struct RequestObservation {
    pub model_id: String,
    pub routing_key: Option<String>,
    pub state: RequestObservationState,
    pub input_tokens: u64,
    pub output_tokens: u64,
    pub output_tokens_from_chunk_usage: bool,
    pub time_to_response_headers: Option<TimeSpan>,
    pub time_to_first_output: Option<TimeSpan>,
    pub time_to_first_token: Option<TimeSpan>,
    pub total_duration: TimeSpan,
}

impl RequestObservation {
    /// Whether the request is over.
    pub fn is_terminal(&self) -> (terminal: bool)
        ensures
            terminal == is_over(self.state),
    {
        match self.state {
            RequestObservationState::Complete => true,
            RequestObservationState::Failed => true,
            RequestObservationState::Cancelled => true,
            _ => false,
        }
    }

    /// The routing key, empty where there is none.
    pub open spec fn key_label(&self) -> Seq<char> {
        match self.routing_key {
            Some(key) => key@,
            None => ""@,
        }
    }
}

/// A request counted in a state.
pub struct ObservedRequestState {
    pub model_id: String,
    pub state: RequestObservationState,
}

/// The input tokens of all requests of a model in a state.
pub struct StateInputTokens {
    pub model_id: String,
    pub state: RequestObservationState,
    pub input_tokens: u128,
}

/// What an observation changes: the state a request was counted in, the state it is counted in
/// now, and the totals of input tokens that changed with it.
pub struct RequestObservationTransition {
    pub prior: Option<ObservedRequestState>,
    pub current: Option<ObservedRequestState>,
    pub input_token_totals: Vec<StateInputTokens>,
}

/// What a histogram observes.
#[derive(Clone, Copy, Debug, PartialEq, Eq, Structural)]
pub enum HistogramValue {
    /// A length of time, in seconds.
    Seconds(TimeSpan),
    /// A length of time, in milliseconds.
    Millis(TimeSpan),
    /// A number.
    Number(u64),
}

/// An observation for a histogram.
pub struct HistogramSample {
    pub histogram: PylonHistogram,
    pub labels: Vec<String>,
    pub value: HistogramValue,
}

/// The contents of a `HistogramSample`.
pub struct HistogramSampleView {
    pub histogram: PylonHistogram,
    pub labels: Seq<Seq<char>>,
    pub value: HistogramValue,
}

impl View for HistogramSample {
    type V = HistogramSampleView;

    open spec fn view(&self) -> HistogramSampleView {
        HistogramSampleView {
            histogram: self.histogram,
            labels: texts(self.labels@),
            value: self.value,
        }
    }
}

/// The contents of observations.
pub open spec fn sample_views(samples: Seq<HistogramSample>) -> Seq<HistogramSampleView> {
    Seq::new(samples.len(), |i: int| samples[i]@)
}

/// What a gauge that holds fractions shows.
#[derive(Clone, Copy, Debug, PartialEq, Eq, Structural)]
pub enum FloatGaugeValue {
    Number(u64),
    Fraction(Score),
}

/// The statistics of a model.
pub struct CurrentModelStats {
    pub output_tps: Score,
    pub embedding_item_tps: Score,
    pub last_mean_input_tps: Score,
    pub max_output_tps: Score,
    pub max_embedding_item_tps: Score,
    pub queue_size: u64,
    pub queued_input_size: u64,
    pub kv_cache_capacity_tokens: u64,
    pub kv_cache_used_tokens: u64,
    pub kv_cache_free_tokens: u64,
    pub stats_capabilities: Vec<String>,
    pub stats_sources: Vec<String>,
}

/// What the gauges that hold fractions show of a model, in order.
pub open spec fn model_gauge_values(stats: CurrentModelStats) -> Seq<
    (PylonFloatGauge, FloatGaugeValue),
> {
    seq![
        (PylonFloatGauge::OutputTps, FloatGaugeValue::Fraction(stats.output_tps)),
        (PylonFloatGauge::EmbeddingItemTps, FloatGaugeValue::Fraction(stats.embedding_item_tps)),
        (PylonFloatGauge::LastMeanInputTps, FloatGaugeValue::Fraction(stats.last_mean_input_tps)),
        (PylonFloatGauge::MaxOutputTps, FloatGaugeValue::Fraction(stats.max_output_tps)),
        (
            PylonFloatGauge::MaxEmbeddingItemTps,
            FloatGaugeValue::Fraction(stats.max_embedding_item_tps),
        ),
        (PylonFloatGauge::QueueSize, FloatGaugeValue::Number(stats.queue_size)),
        (PylonFloatGauge::QueuedInputTokens, FloatGaugeValue::Number(stats.queued_input_size)),
        (
            PylonFloatGauge::KvCacheCapacityTokens,
            FloatGaugeValue::Number(stats.kv_cache_capacity_tokens),
        ),
        (PylonFloatGauge::KvCacheUsedTokens, FloatGaugeValue::Number(stats.kv_cache_used_tokens)),
        (PylonFloatGauge::KvCacheFreeTokens, FloatGaugeValue::Number(stats.kv_cache_free_tokens)),
    ]
}

/// The gauges that hold fractions, in order.
pub open spec fn model_float_gauges() -> Seq<PylonFloatGauge> {
    seq![
        PylonFloatGauge::OutputTps,
        PylonFloatGauge::EmbeddingItemTps,
        PylonFloatGauge::LastMeanInputTps,
        PylonFloatGauge::MaxOutputTps,
        PylonFloatGauge::MaxEmbeddingItemTps,
        PylonFloatGauge::QueueSize,
        PylonFloatGauge::QueuedInputTokens,
        PylonFloatGauge::KvCacheCapacityTokens,
        PylonFloatGauge::KvCacheUsedTokens,
        PylonFloatGauge::KvCacheFreeTokens,
    ]
}

/// The samples after a gauge of a model was set to 1 for each of the values of its second label,
/// up to `count`.
pub open spec fn marked(
    samples: PylonSamples,
    family: PylonGauge,
    model_id: Seq<char>,
    values: Seq<Seq<char>>,
    count: int,
) -> PylonSamples
    decreases count,
{
    if count <= 0 {
        samples
    } else {
        marked(samples, family, model_id, values, count - 1).set(
            family,
            seq![model_id, values[count - 1]],
            1,
        )
    }
}

/// The samples after a gauge of a model was removed for each of the values of its second label, up
/// to `count`.
pub open spec fn unmarked(
    samples: PylonSamples,
    family: PylonGauge,
    model_id: Seq<char>,
    values: Seq<Seq<char>>,
    count: int,
) -> PylonSamples
    decreases count,
{
    if count <= 0 {
        samples
    } else {
        unmarked(samples, family, model_id, values, count - 1).without(
            family,
            seq![model_id, values[count - 1]],
        )
    }
}

/// The labels of all states, in order.
pub open spec fn state_labels() -> Seq<Seq<char>> {
    seq![
        "queued"@,
        "upstream_connecting"@,
        "input_processing"@,
        "output_generation"@,
        "complete"@,
        "failed"@,
        "cancelled"@,
    ]
}

/// The samples after the gauges of a model were removed for each state, up to `count`.
pub open spec fn without_states(
    samples: PylonSamples,
    model_id: Seq<char>,
    count: int,
) -> PylonSamples
    decreases count,
{
    if count <= 0 {
        samples
    } else {
        let labels = seq![model_id, state_labels()[count - 1]];
        without_states(samples, model_id, count - 1).without(
            PylonGauge::RequestsState,
            labels,
        ).without(PylonGauge::RequestsStateInputTokens, labels)
    }
}

/// The samples after the gauges of a model were removed.
pub open spec fn without_model(
    samples: PylonSamples,
    model_id: Seq<char>,
    stats: Option<&CurrentModelStats>,
) -> PylonSamples {
    let requests = without_states(
        samples.without(PylonGauge::RequestsInflight, seq![model_id]),
        model_id,
        7,
    );
    match stats {
        None => requests,
        Some(stats) => {
            let capabilities = texts(stats.stats_capabilities@);
            let sources = texts(stats.stats_sources@);
            unmarked(
                unmarked(
                    requests,
                    PylonGauge::StatsCapability,
                    model_id,
                    capabilities,
                    capabilities.len() as int,
                ),
                PylonGauge::StatsSource,
                model_id,
                sources,
                sources.len() as int,
            )
        },
    }
}

/// The samples after a request was counted in a state, or no longer.
pub open spec fn adjusted(
    samples: PylonSamples,
    request: ObservedRequestState,
    by: i64,
) -> PylonSamples {
    samples.moved(PylonGauge::RequestsInflight, seq![request.model_id@], by).moved(
        PylonGauge::RequestsState,
        seq![request.model_id@, state_label(request.state)],
        by,
    )
}

/// The samples after a request that is over was counted.
pub open spec fn recorded(samples: PylonSamples, observation: RequestObservation) -> PylonSamples {
    let labels = seq![
        observation.model_id@,
        observation.key_label(),
        state_label(observation.state),
    ];
    let tokens = samples.count(PylonCounter::Requests, labels, 1).count(
        PylonCounter::RequestInputTokens,
        labels,
        observation.input_tokens,
    ).count(PylonCounter::RequestOutputTokens, labels, observation.output_tokens);
    if observation.output_tokens_from_chunk_usage {
        tokens.count(PylonCounter::RequestStatsSources, labels.push("chunk_usage"@), 1)
    } else {
        tokens
    }
}

/// The observation of an optional length of time.
pub open spec fn timed(
    histogram: PylonHistogram,
    labels: Seq<Seq<char>>,
    duration: Option<TimeSpan>,
) -> Seq<HistogramSampleView> {
    match duration {
        None => Seq::empty(),
        Some(span) => seq![
            HistogramSampleView { histogram, labels, value: HistogramValue::Seconds(span) },
        ],
    }
}

/// What the histograms observe of a request that is over, in order.
pub open spec fn observed(observation: RequestObservation) -> Seq<HistogramSampleView> {
    let pair = seq![observation.model_id@, observation.key_label()];
    let labels = seq![
        observation.model_id@,
        observation.key_label(),
        state_label(observation.state),
    ];
    timed(
        PylonHistogram::TimeToResponseHeaders,
        pair,
        observation.time_to_response_headers,
    ) + timed(PylonHistogram::TimeToFirstOutput, pair, observation.time_to_first_output) + timed(
        PylonHistogram::TimeToFirstToken,
        pair,
        observation.time_to_first_token,
    ) + seq![
        HistogramSampleView {
            histogram: PylonHistogram::RequestDuration,
            labels,
            value: HistogramValue::Seconds(observation.total_duration),
        },
        HistogramSampleView {
            histogram: PylonHistogram::InputTokens,
            labels,
            value: HistogramValue::Number(observation.input_tokens),
        },
        HistogramSampleView {
            histogram: PylonHistogram::OutputTokens,
            labels,
            value: HistogramValue::Number(observation.output_tokens),
        },
    ]
}

/// The samples after totals of input tokens were shown, up to `count`.
pub open spec fn with_token_totals(
    samples: PylonSamples,
    totals: Seq<StateInputTokens>,
    count: int,
) -> PylonSamples
    decreases count,
{
    if count <= 0 {
        samples
    } else {
        let total = totals[count - 1];
        with_token_totals(samples, totals, count - 1).set(
            PylonGauge::RequestsStateInputTokens,
            seq![total.model_id@, state_label(total.state)],
            saturated(total.input_tokens as int),
        )
    }
}

/// The samples after an observation: the request leaves the state it was counted in, is counted
/// among those that are over if it is, enters the state it is in now, and the totals of input
/// tokens are shown.
pub open spec fn transitioned(
    samples: PylonSamples,
    observation: RequestObservation,
    transition: RequestObservationTransition,
) -> PylonSamples {
    let left = match transition.prior {
        Some(prior) => adjusted(samples, prior, -1i64),
        None => samples,
    };
    let counted = if is_over(observation.state) {
        recorded(left, observation)
    } else {
        left
    };
    let entered = match transition.current {
        Some(current) => adjusted(counted, current, 1),
        None => counted,
    };
    with_token_totals(
        entered,
        transition.input_token_totals@,
        transition.input_token_totals@.len() as int,
    )
}

/// The samples after the status of a model was shown to a router: 1 under the status, 0 under the
/// others.
pub open spec fn advertised(
    samples: PylonSamples,
    router: Seq<char>,
    model_id: Seq<char>,
    status: InferenceServerStatus,
) -> PylonSamples {
    let show = |known: InferenceServerStatus|
        if status == known {
            1i64
        } else {
            0i64
        };
    samples.set(
        PylonGauge::AdvertisedStatus,
        seq![router, model_id, "active"@],
        show(InferenceServerStatus::Active),
    ).set(
        PylonGauge::AdvertisedStatus,
        seq![router, model_id, "inactive"@],
        show(InferenceServerStatus::Inactive),
    ).set(
        PylonGauge::AdvertisedStatus,
        seq![router, model_id, "unknown"@],
        show(InferenceServerStatus::Unknown),
    )
}

/// The samples once a router is told no status of a model any more.
pub open spec fn not_advertised(
    samples: PylonSamples,
    router: Seq<char>,
    model_id: Seq<char>,
) -> PylonSamples {
    samples.without(PylonGauge::AdvertisedStatus, seq![router, model_id, "active"@]).without(
        PylonGauge::AdvertisedStatus,
        seq![router, model_id, "inactive"@],
    ).without(PylonGauge::AdvertisedStatus, seq![router, model_id, "unknown"@])
}

/// The samples once a poll for models has ended; how many models there are is shown if it is known.
pub open spec fn polled(
    samples: PylonSamples,
    provider: Seq<char>,
    outcome: Seq<char>,
    model_count: Option<usize>,
) -> PylonSamples {
    let counted = samples.count(PylonCounter::DiscoveryPolls, seq![provider, outcome], 1);
    match model_count {
        Some(count) => counted.set(
            PylonGauge::DiscoveredModels,
            seq![provider],
            saturated(count as int),
        ),
        None => counted,
    }
}

/// The times that are recorded of a decision on admission: the expected and the actual one, as far as
/// they are known.
pub open spec fn admission_samples(
    inference_server_id: Seq<char>,
    model_id: Seq<char>,
    expected_ms: Option<u64>,
    actual_ms: Option<u64>,
) -> Seq<HistogramSampleView> {
    let labels = seq![inference_server_id, model_id];
    numbered(PylonHistogram::QueueAdmissionExpected, labels, expected_ms) + numbered(
        PylonHistogram::QueueAdmissionActual,
        labels,
        actual_ms,
    )
}

/// Whether the identity may be served when the clock gives `now`.
pub open spec fn identity_ready(samples: PylonSamples, now: Option<u64>) -> bool {
    samples.identity_validated && expiry_ready(samples.identity_not_after, now)
}

/// The samples after the capabilities and the sources of a model's statistics were shown.
pub open spec fn with_stats(
    samples: PylonSamples,
    model_id: Seq<char>,
    stats: CurrentModelStats,
) -> PylonSamples {
    let capabilities = texts(stats.stats_capabilities@);
    let sources = texts(stats.stats_sources@);
    marked(
        marked(
            samples,
            PylonGauge::StatsCapability,
            model_id,
            capabilities,
            capabilities.len() as int,
        ),
        PylonGauge::StatsSource,
        model_id,
        sources,
        sources.len() as int,
    )
}

/// The observation of an optional number.
pub open spec fn numbered(
    histogram: PylonHistogram,
    labels: Seq<Seq<char>>,
    number: Option<u64>,
) -> Seq<HistogramSampleView> {
    match number {
        None => Seq::empty(),
        Some(number) => seq![
            HistogramSampleView { histogram, labels, value: HistogramValue::Number(number) },
        ],
    }
}

fn number_sample(histogram: PylonHistogram, first: &str, second: &str, number: u64) -> (sample:
    HistogramSample)
    ensures
        sample@ == (HistogramSampleView {
            histogram,
            labels: seq![first@, second@],
            value: HistogramValue::Number(number),
        }),
{
    let labels: Vec<String> = vec![first.to_owned(), second.to_owned()];
    assert(texts(labels@) =~= seq![first@, second@]);
    HistogramSample { histogram, labels, value: HistogramValue::Number(number) }
}

fn span_sample(
    histogram: PylonHistogram,
    model_id: &str,
    routing_key: &str,
    span: TimeSpan,
) -> (sample: HistogramSample)
    ensures
        sample@ == (HistogramSampleView {
            histogram,
            labels: seq![model_id@, routing_key@],
            value: HistogramValue::Seconds(span),
        }),
{
    let labels: Vec<String> = vec![model_id.to_owned(), routing_key.to_owned()];
    assert(texts(labels@) =~= seq![model_id@, routing_key@]);
    HistogramSample { histogram, labels, value: HistogramValue::Seconds(span) }
}

fn status_sample(
    histogram: PylonHistogram,
    model_id: &str,
    routing_key: &str,
    state: &str,
    value: HistogramValue,
) -> (sample: HistogramSample)
    ensures
        sample@ == (HistogramSampleView {
            histogram,
            labels: seq![model_id@, routing_key@, state@],
            value,
        }),
{
    let labels: Vec<String> = vec![model_id.to_owned(), routing_key.to_owned(), state.to_owned()];
    assert(texts(labels@) =~= seq![model_id@, routing_key@, state@]);
    HistogramSample { histogram, labels, value }
}

/// The name, the description and the labels of a family of counters.
pub open spec fn counter_described(family: PylonCounter) -> (Seq<char>, Seq<char>, Seq<Seq<char>>) {
    (family.exported_name(), family.description(), family.labels())
}

/// The name, the description and the labels of a family of gauges.
pub open spec fn gauge_described(family: PylonGauge) -> (Seq<char>, Seq<char>, Seq<Seq<char>>) {
    (family.exported_name(), family.description(), family.labels())
}

/// The families of counters and of gauges, by name, description and labels.
pub open spec fn pylon_families() -> Seq<(Seq<char>, Seq<char>, Seq<Seq<char>>)> {
    Seq::new(
        31,
        |i: int|
            if i < 17 {
                counter_described(PylonCounter::at(i))
            } else {
                gauge_described(PylonGauge::at(i - 17))
            },
    )
}

/// What is exported of the families of counters: descriptions and samples.
pub open spec fn counter_exports(samples: PylonSamples) -> Seq<
    ((Seq<char>, Seq<char>, Seq<Seq<char>>), Map<u64, (Seq<Seq<char>>, u64)>),
> {
    Seq::new(
        17,
        |i: int|
            (counter_described(PylonCounter::at(i)), samples.counters[PylonCounter::at(i)]),
    )
}

/// What is exported of the families of gauges: descriptions and samples.
pub open spec fn gauge_exports(samples: PylonSamples) -> Seq<
    ((Seq<char>, Seq<char>, Seq<Seq<char>>), Map<u64, (Seq<Seq<char>>, i64)>),
> {
    Seq::new(
        14,
        |i: int| (gauge_described(PylonGauge::at(i)), samples.gauges[PylonGauge::at(i)]),
    )
}

/// Whether a text shows all samples, and nothing else.
pub open spec fn shows_samples(text: Seq<char>, samples: PylonSamples) -> bool {
    is_export(text, counter_exports(samples), gauge_exports(samples))
}

fn one_label(a: &'_ str) -> (labels: Vec<&'_ str>)
    ensures
        label_texts(labels@) == seq![a@],
        labels@.len() == 1,
{
    let labels: Vec<&str> = vec![a];
    assert(label_texts(labels@) =~= seq![a@]);
    labels
}

fn two_labels<'a>(a: &'a str, b: &'a str) -> (labels: Vec<&'a str>)
    ensures
        label_texts(labels@) == seq![a@, b@],
        labels@.len() == 2,
{
    let labels: Vec<&str> = vec![a, b];
    assert(label_texts(labels@) =~= seq![a@, b@]);
    labels
}

fn three_labels<'a>(a: &'a str, b: &'a str, c: &'a str) -> (labels: Vec<&'a str>)
    ensures
        label_texts(labels@) == seq![a@, b@, c@],
        labels@.len() == 3,
{
    let labels: Vec<&str> = vec![a, b, c];
    assert(label_texts(labels@) =~= seq![a@, b@, c@]);
    labels
}

/// A counter of a pylon, to be counted up.
pub struct CounterHandle<'a> {
    pub metrics: &'a mut PylonMetrics,
    pub family: PylonCounter,
    pub labels: Vec<&'a str>,
}

impl<'a> CounterHandle<'a> {
    /// The family takes the labels.
    pub open spec fn wf(&self) -> bool {
        &&& self.metrics.wf()
        &&& self.labels@.len() == self.family.labels().len()
    }

    /// Counts up by one.
    pub fn inc(&mut self)
        requires
            old(self).wf(),
        ensures
            final(self).wf(),
            final(self).family == old(self).family,
            final(self).labels == old(self).labels,
            final(self).metrics@ == old(self).metrics@.count(
                old(self).family,
                label_texts(old(self).labels@),
                1,
            ),
            *final(final(self).metrics) == *final(old(self).metrics),
    {
        self.metrics.count(self.family, &self.labels, 1);
    }
}

impl PylonMetrics {
    /// Every family is there, exported under its name, with its description and its labels. As long
    /// as no one else has a handle on the registry, it holds these families and no others.
    pub closed spec fn wf(&self) -> bool {
        &&& registry_families(self.registry) is Some ==> registry_families(self.registry) == Some(
            pylon_families(),
        )
        &&& forall|i: int|
            0 <= i < self.counters@.len() ==> counter_home(#[trigger] self.counters@[i])
                == registry_mark(self.registry)
        &&& forall|i: int|
            0 <= i < self.gauges@.len() ==> gauge_home(#[trigger] self.gauges@[i])
                == registry_mark(self.registry)
        &&& self.counters@.len() == 17
        &&& self.gauges@.len() == 14
        &&& forall|family: PylonCounter|
            counter_description(self.counters@[#[trigger] family.place()]) == counter_described(
                family,
            )
        &&& forall|family: PylonGauge|
            gauge_description(self.gauges@[#[trigger] family.place()]) == gauge_described(family)
    }

    /// Metrics of which nothing is counted yet.
    pub fn new() -> (metrics: Result<Self, MetricsError>)
        ensures
            metrics is Ok <==> all_registrable(pylon_families()),
            metrics matches Ok(made) ==> made.wf() && made@ == initial_samples(
                made@.registry,
            ),
    {
        let mut registry: prometheus::Registry = new_registry();
        let ghost families = pylon_families();
        assert(families.take(0) =~= Seq::empty());
        let mut counters: Vec<CounterFamily> = Vec::new();
        let counter_families: Vec<PylonCounter> = PylonCounter::all();
        let mut at: usize = 0;
        while at < counter_families.len()
            invariant
                at <= counter_families@.len() == 17,
                counters@.len() == at,
                families == pylon_families(),
                registry_families(registry) == Some(families.take(at as int)),
                forall|i: int|
                    0 <= i < at ==> is_registrable(families.take(i), #[trigger] families[i]),
                forall|i: int|
                    0 <= i < 17 ==> #[trigger] counter_families@[i] == PylonCounter::at(i),
                forall|i: int|
                    0 <= i < at ==> counter_home(#[trigger] counters@[i]) == registry_mark(
                        registry,
                    ),
                forall|i: int|
                    0 <= i < at ==> counter_description(#[trigger] counters@[i])
                        == counter_described(PylonCounter::at(i)) && counter_samples(counters@[i])
                        == no_counters(),
            decreases counter_families@.len() - at,
        {
            let descriptor: Descriptor = counter_families[at].descriptor();
            assert(families[at as int] == counter_described(PylonCounter::at(at as int)));
            assert(families.take(at + 1) =~= families.take(at as int).push(families[at as int]));
            match new_counter_family(
                &mut registry,
                descriptor.name,
                descriptor.help,
                descriptor.labels.as_slice(),
            ) {
                Ok(family) => counters.push(family),
                Err(error) => return Err(error),
            }
            at = at + 1;
        }
        let mut gauges: Vec<GaugeFamily> = Vec::new();
        let gauge_families: Vec<PylonGauge> = PylonGauge::all();
        let mut place: usize = 0;
        while place < gauge_families.len()
            invariant
                place <= gauge_families@.len() == 14,
                gauges@.len() == place,
                families == pylon_families(),
                registry_families(registry) == Some(families.take(17 + place)),
                forall|i: int|
                    0 <= i < 17 + place ==> is_registrable(
                        families.take(i),
                        #[trigger] families[i],
                    ),
                forall|i: int| 0 <= i < 14 ==> #[trigger] gauge_families@[i] == PylonGauge::at(i),
                forall|i: int|
                    0 <= i < counters@.len() ==> counter_home(#[trigger] counters@[i])
                        == registry_mark(registry),
                forall|i: int|
                    0 <= i < place ==> gauge_home(#[trigger] gauges@[i]) == registry_mark(registry),
                forall|i: int|
                    0 <= i < place ==> gauge_description(#[trigger] gauges@[i]) == gauge_described(
                        PylonGauge::at(i),
                    ) && gauge_samples(gauges@[i]) == no_gauges(),
            decreases gauge_families@.len() - place,
        {
            let descriptor: Descriptor = gauge_families[place].descriptor();
            assert(families[17 + place] == gauge_described(PylonGauge::at(place as int)));
            assert(families.take(17 + place + 1) =~= families.take(17 + place).push(
                families[17 + place],
            ));
            match new_gauge_family(
                &mut registry,
                descriptor.name,
                descriptor.help,
                descriptor.labels.as_slice(),
            ) {
                Ok(family) => gauges.push(family),
                Err(error) => return Err(error),
            }
            place = place + 1;
        }
        assert(families.take(31) =~= families);
        let mut metrics = PylonMetrics {
            registry,
            counters,
            gauges,
            tls_initial_validation_complete: false,
            tls_identity_not_after: NO_EXPIRY,
        };
        proof {
            assert forall|family: PylonCounter|
                counter_description(metrics.counters@[#[trigger] family.place()])
                    == counter_described(family) && counter_samples(
                    metrics.counters@[family.place()],
                ) == no_counters() by {
                counter_places_are_distinct(family);
            }
            assert forall|family: PylonGauge|
                gauge_description(metrics.gauges@[#[trigger] family.place()]) == gauge_described(
                    family,
                ) && gauge_samples(metrics.gauges@[family.place()]) == no_gauges() by {
                gauge_places_are_distinct(family);
            }
        }
        let ghost none = metrics@;
        assert(none.counters =~= Map::new(
            |family: PylonCounter| true,
            |family: PylonCounter| no_counters(),
        ));
        assert(none.gauges =~= Map::new(
            |family: PylonGauge| true,
            |family: PylonGauge| no_gauges(),
        ));
        metrics.count(PylonCounter::TlsReloads, &two_labels("server_identity", "success"), 0);
        metrics.count(PylonCounter::TlsReloads, &two_labels("server_identity", "rejected"), 0);
        metrics.count(PylonCounter::TlsReloads, &two_labels("client_trust", "success"), 0);
        metrics.count(PylonCounter::TlsReloads, &two_labels("client_trust", "rejected"), 0);
        metrics.show(PylonGauge::TlsCertificateExpiry, &one_label("server_identity"), 0);
        assert(metrics@.counters =~= initial_samples(metrics@.registry).counters);
        Ok(metrics)
    }

    fn count(&mut self, family: PylonCounter, labels: &Vec<&str>, by: u64)
        requires
            old(self).wf(),
            labels@.len() == family.labels().len(),
        ensures
            final(self).wf(),
            final(self)@ == old(self)@.count(family, label_texts(labels@), by),
    {
        let place: usize = family.index();
        proof {
            counter_places_are_distinct(family);
        }
        let ghost before = *self;
        add_to_counter(&mut self.counters[place], labels.as_slice(), by);
        proof {
            self.lemma_counter_changed(before, family);
        }
    }

    fn show(&mut self, family: PylonGauge, labels: &Vec<&str>, value: i64)
        requires
            old(self).wf(),
            labels@.len() == family.labels().len(),
        ensures
            final(self).wf(),
            final(self)@ == old(self)@.set(family, label_texts(labels@), value),
    {
        let place: usize = family.index();
        proof {
            gauge_places_are_distinct(family);
        }
        let ghost before = *self;
        set_gauge(&mut self.gauges[place], labels.as_slice(), value);
        proof {
            self.lemma_gauge_changed(before, family);
        }
    }

    fn shift(&mut self, family: PylonGauge, labels: &Vec<&str>, by: i64)
        requires
            old(self).wf(),
            labels@.len() == family.labels().len(),
        ensures
            final(self).wf(),
            final(self)@ == old(self)@.moved(family, label_texts(labels@), by),
    {
        let place: usize = family.index();
        proof {
            gauge_places_are_distinct(family);
        }
        let ghost before = *self;
        move_gauge(&mut self.gauges[place], labels.as_slice(), by);
        proof {
            self.lemma_gauge_changed(before, family);
        }
    }

    fn retire(&mut self, family: PylonGauge, labels: &Vec<&str>)
        requires
            old(self).wf(),
            labels@.len() == family.labels().len(),
        ensures
            final(self).wf(),
            final(self)@ == old(self)@.without(family, label_texts(labels@)),
    {
        let place: usize = family.index();
        proof {
            gauge_places_are_distinct(family);
        }
        let ghost before = *self;
        remove_gauge(&mut self.gauges[place], labels.as_slice());
        proof {
            self.lemma_gauge_changed(before, family);
        }
    }

    proof fn lemma_counter_changed(&self, before: PylonMetrics, family: PylonCounter)
        requires
            before.wf(),
            self.registry == before.registry,
            self.gauges == before.gauges,
            self.tls_initial_validation_complete == before.tls_initial_validation_complete,
            self.tls_identity_not_after == before.tls_identity_not_after,
            self.counters@ == before.counters@.update(
                family.place(),
                self.counters@[family.place()],
            ),
            counter_description(self.counters@[family.place()]) == counter_described(family),
            counter_home(self.counters@[family.place()]) == counter_home(
                before.counters@[family.place()],
            ),
        ensures
            self.wf(),
            self@ == (PylonSamples {
                counters: before@.counters.insert(
                    family,
                    counter_samples(self.counters@[family.place()]),
                ),
                ..before@
            }),
    {
        assert forall|other: PylonCounter|
            counter_description(self.counters@[#[trigger] other.place()]) == counter_described(
                other,
            ) by {
            counter_places_are_distinct(other);
            counter_places_are_distinct(family);
        }
        assert forall|other: PylonCounter| other != family implies #[trigger] other.place()
            != family.place() by {
            counter_places_are_distinct(other);
            counter_places_are_distinct(family);
        }
        counter_places_are_distinct(family);
        assert forall|other: PylonCounter|
            other != family implies #[trigger] self@.counters[other] == before@.counters[other] by {
            counter_places_are_distinct(other);
            assert(self.counters@[other.place()] == before.counters@[other.place()]);
        }
        assert(self@.counters =~= before@.counters.insert(
            family,
            counter_samples(self.counters@[family.place()]),
        ));
        assert(self@.gauges =~= before@.gauges);
    }

    proof fn lemma_gauge_changed(&self, before: PylonMetrics, family: PylonGauge)
        requires
            before.wf(),
            self.registry == before.registry,
            self.counters == before.counters,
            self.tls_initial_validation_complete == before.tls_initial_validation_complete,
            self.tls_identity_not_after == before.tls_identity_not_after,
            self.gauges@ == before.gauges@.update(family.place(), self.gauges@[family.place()]),
            gauge_description(self.gauges@[family.place()]) == gauge_described(family),
            gauge_home(self.gauges@[family.place()]) == gauge_home(before.gauges@[family.place()]),
        ensures
            self.wf(),
            self@ == (PylonSamples {
                gauges: before@.gauges.insert(
                    family,
                    gauge_samples(self.gauges@[family.place()]),
                ),
                ..before@
            }),
    {
        assert forall|other: PylonGauge|
            gauge_description(self.gauges@[#[trigger] other.place()]) == gauge_described(other) by {
            gauge_places_are_distinct(other);
            gauge_places_are_distinct(family);
        }
        assert forall|other: PylonGauge| other != family implies #[trigger] other.place()
            != family.place() by {
            gauge_places_are_distinct(other);
            gauge_places_are_distinct(family);
        }
        gauge_places_are_distinct(family);
        assert forall|other: PylonGauge|
            other != family implies #[trigger] self@.gauges[other] == before@.gauges[other] by {
            gauge_places_are_distinct(other);
            assert(self.gauges@[other.place()] == before.gauges@[other.place()]);
        }
        assert(self@.gauges =~= before@.gauges.insert(
            family,
            gauge_samples(self.gauges@[family.place()]),
        ));
        assert(self@.counters =~= before@.counters);
    }

    /// Counts a reload of TLS material by its result.
    pub fn observe_tls_reload(&mut self, material_type: &str, result: &str)
        requires
            old(self).wf(),
        ensures
            final(self).wf(),
            final(self)@ == old(self)@.count(
                PylonCounter::TlsReloads,
                seq![material_type@, result@],
                1,
            ),
    {
        self.count(PylonCounter::TlsReloads, &two_labels(material_type, result), 1);
    }

    /// Shows the expiry of the identity in use, which readiness goes by.
    pub fn set_tls_certificate_expiry(&mut self, unix_seconds: i64)
        requires
            old(self).wf(),
        ensures
            final(self).wf(),
            final(self)@ == (PylonSamples { identity_not_after: unix_seconds, ..old(self)@ }).set(
                PylonGauge::TlsCertificateExpiry,
                seq!["server_identity"@],
                unix_seconds,
            ),
    {
        self.show(PylonGauge::TlsCertificateExpiry, &one_label("server_identity"), unix_seconds);
        let ghost shown = self@;
        self.tls_identity_not_after = unix_seconds;
        assert(self@.counters =~= shown.counters);
        assert(self@.gauges =~= shown.gauges);
    }

    /// Notes that the identity was validated once.
    pub fn mark_tls_initial_validation_complete(&mut self)
        requires
            old(self).wf(),
        ensures
            final(self).wf(),
            final(self)@ == (PylonSamples { identity_validated: true, ..old(self)@ }),
    {
        self.tls_initial_validation_complete = true;
        assert(self@.counters =~= old(self)@.counters);
        assert(self@.gauges =~= old(self)@.gauges);
    }

    /// Whether the identity in use may be served now: the answer is that of
    /// `tls_identity_is_ready_at` for the time that the clock gives.
    pub fn tls_identity_is_ready(&self) -> (ready: bool)
        ensures
            exists|now: Option<u64>| ready == #[trigger] identity_ready(self@, now),
            !self@.identity_validated ==> !ready,
            self@.identity_validated && self@.identity_not_after == NO_EXPIRY ==> ready,
            self@.identity_not_after < 0 ==> !ready,
    {
        let now: Option<u64> = unix_seconds_now();
        self.tls_identity_is_ready_at(now)
    }

    /// Whether the identity in use may be served when the clock gives `now`: not before it was
    /// validated once, and not behind its expiry.
    pub fn tls_identity_is_ready_at(&self, now: Option<u64>) -> (ready: bool)
        ensures
            ready == identity_ready(self@, now),
    {
        self.tls_initial_validation_complete && identity_is_ready(self.tls_identity_not_after, now)
    }

    /// A handle on the registry that the families are exported through. Whoever has it can enter
    /// families into the registry and take families out of it.
    pub fn registry(&mut self) -> (registry: prometheus::Registry)
        requires
            old(self).wf(),
        ensures
            final(self).wf(),
            registry_mark(registry) == old(self)@.registry,
            final(self)@ == (PylonSamples { shared: true, ..old(self)@ }),
    {
        let registry: prometheus::Registry = share_registry(&mut self.registry);
        assert(self@ =~= (PylonSamples { shared: true, ..old(self)@ }));
        registry
    }

    /// The metrics as text: a line for every sample. Where others have a handle on the registry,
    /// what they entered is exported too, and may fail to be.
    pub fn gather_text(&self) -> (text: Result<String, MetricsError>)
        ensures
            self.wf() && !self@.shared ==> text is Ok && shows_samples(text->Ok_0@, self@),
            text is Ok ==> can_export(self@.registry, text->Ok_0@),
    {
        let mut counters: Vec<&CounterFamily> = Vec::new();
        let mut at: usize = 0;
        while at < self.counters.len()
            invariant
                at == counters@.len() <= self.counters@.len(),
                forall|i: int| 0 <= i < at ==> *(#[trigger] counters@[i]) == self.counters@[i],
            decreases self.counters@.len() - at,
        {
            counters.push(&self.counters[at]);
            at = at + 1;
        }
        let mut gauges: Vec<&GaugeFamily> = Vec::new();
        let mut place: usize = 0;
        while place < self.gauges.len()
            invariant
                place == gauges@.len() <= self.gauges@.len(),
                forall|i: int| 0 <= i < place ==> *(#[trigger] gauges@[i]) == self.gauges@[i],
            decreases self.gauges@.len() - place,
        {
            gauges.push(&self.gauges[place]);
            place = place + 1;
        }
        proof {
            if self.wf() && !self@.shared {
                self.lemma_contents(counters@, gauges@);
            }
        }
        export_text(&self.registry, &counters, &gauges)
    }

    proof fn lemma_contents(&self, counters: Seq<&CounterFamily>, gauges: Seq<&GaugeFamily>)
        requires
            self.wf(),
            !self@.shared,
            counters.len() == self.counters@.len(),
            gauges.len() == self.gauges@.len(),
            forall|i: int| 0 <= i < counters.len() ==> *(#[trigger] counters[i]) == self.counters@[i],
            forall|i: int| 0 <= i < gauges.len() ==> *(#[trigger] gauges[i]) == self.gauges@[i],
        ensures
            holds_exactly(self.registry, counters, gauges),
            counter_contents(counters) == counter_exports(self@),
            gauge_contents(gauges) == gauge_exports(self@),
    {
        assert forall|i: int| 0 <= i < 17 implies PylonCounter::at(i).place() == i by {}
        assert forall|i: int| 0 <= i < 14 implies PylonGauge::at(i).place() == i by {}
        assert forall|i: int| 0 <= i < 17 implies counter_description(*(#[trigger] counters[i]))
            == counter_described(PylonCounter::at(i)) && counter_samples(*counters[i])
            == self@.counters[PylonCounter::at(i)] by {
            assert(PylonCounter::at(i).place() == i);
        }
        assert forall|i: int| 0 <= i < 14 implies gauge_description(*(#[trigger] gauges[i]))
            == gauge_described(PylonGauge::at(i)) && gauge_samples(*gauges[i])
            == self@.gauges[PylonGauge::at(i)] by {
            assert(PylonGauge::at(i).place() == i);
        }
        assert(Seq::new(counters.len(), |i: int| counter_description(*counters[i])) + Seq::new(
            gauges.len(),
            |i: int| gauge_description(*gauges[i]),
        ) =~= pylon_families());
        assert(counter_contents(counters) =~= counter_exports(self@));
        assert(gauge_contents(gauges) =~= gauge_exports(self@));
    }

    /// Shows what runs here.
    pub fn observe_target_info(&mut self, service_version: &str, service_name: &str, commit: &str)
        requires
            old(self).wf(),
        ensures
            final(self).wf(),
            final(self)@ == old(self)@.set(
                PylonGauge::TargetInfo,
                seq![service_version@, service_name@, commit@],
                1,
            ),
    {
        self.show(
            PylonGauge::TargetInfo,
            &three_labels(service_version, service_name, commit),
            1,
        );
    }

    /// Follows a request from the state it was counted in to the state it is in now, and hands
    /// back what the histograms observe of a request that is over.
    pub fn observe_request_transition(
        &mut self,
        observation: &RequestObservation,
        transition: &RequestObservationTransition,
    ) -> (samples: Vec<HistogramSample>)
        requires
            old(self).wf(),
        ensures
            final(self).wf(),
            final(self)@ == transitioned(old(self)@, *observation, *transition),
            sample_views(samples@) == if is_over(observation.state) {
                observed(*observation)
            } else {
                Seq::empty()
            },
    {
        match &transition.prior {
            Some(prior) => self.adjust_observed_request(prior, -1),
            None => {},
        }
        let samples: Vec<HistogramSample> = if observation.is_terminal() {
            self.record_terminal_observation(observation)
        } else {
            Vec::new()
        };
        match &transition.current {
            Some(current) => self.adjust_observed_request(current, 1),
            None => {},
        }
        let ghost entered = self@;
        let mut at: usize = 0;
        while at < transition.input_token_totals.len()
            invariant
                self.wf(),
                at <= transition.input_token_totals@.len(),
                self@ == with_token_totals(
                    entered,
                    transition.input_token_totals@,
                    at as int,
                ),
            decreases transition.input_token_totals@.len() - at,
        {
            let total: &StateInputTokens = &transition.input_token_totals[at];
            self.show(
                PylonGauge::RequestsStateInputTokens,
                &two_labels(total.model_id.as_str(), request_state_label(total.state)),
                saturating_i64(total.input_tokens),
            );
            at = at + 1;
        }
        assert(!is_over(observation.state) ==> sample_views(samples@) =~= Seq::empty());
        samples
    }

    /// Counts an event of the engine stats stream.
    pub fn observe_engine_stats_stream_event(&mut self, event_type: &str)
        requires
            old(self).wf(),
        ensures
            final(self).wf(),
            final(self)@ == old(self)@.count(
                PylonCounter::StreamEvents,
                seq![event_type@],
                1,
            ),
    {
        self.count(PylonCounter::StreamEvents, &one_label(event_type), 1);
    }

    /// Counts an event of the engine stats stream that was not understood.
    pub fn observe_engine_stats_invalid_event(&mut self, reason: &str)
        requires
            old(self).wf(),
        ensures
            final(self).wf(),
            final(self)@ == old(self)@.count(
                PylonCounter::StreamInvalidEvents,
                seq![reason@],
                1,
            ),
    {
        self.count(PylonCounter::StreamInvalidEvents, &one_label(reason), 1);
    }

    /// Counts a reconnection to the engine stats stream.
    pub fn observe_engine_stats_reconnect(&mut self, reason: &str)
        requires
            old(self).wf(),
        ensures
            final(self).wf(),
            final(self)@ == old(self)@.count(
                PylonCounter::StreamReconnects,
                seq![reason@],
                1,
            ),
    {
        self.count(PylonCounter::StreamReconnects, &one_label(reason), 1);
    }

    /// Shows whether the engine stats stream is connected.
    pub fn observe_engine_stats_stream_connected(&mut self, mode: &str, connected: bool)
        requires
            old(self).wf(),
        ensures
            final(self).wf(),
            final(self)@ == old(self)@.set(
                PylonGauge::StreamConnected,
                seq![mode@],
                if connected {
                    1
                } else {
                    0
                },
            ),
    {
        let value: i64 = if connected {
            1
        } else {
            0
        };
        self.show(PylonGauge::StreamConnected, &one_label(mode), value);
    }

    /// Shows how many requests a source tracks.
    pub fn observe_engine_stats_live_requests(&mut self, source: &str, count: usize)
        requires
            old(self).wf(),
        ensures
            final(self).wf(),
            final(self)@ == old(self)@.set(
                PylonGauge::LiveRequests,
                seq![source@],
                saturated(count as int),
            ),
    {
        self.show(PylonGauge::LiveRequests, &one_label(source), saturating_i64(count as u128));
    }

    /// Shows how many models a source tracks.
    pub fn observe_engine_stats_model_states(&mut self, source: &str, count: usize)
        requires
            old(self).wf(),
        ensures
            final(self).wf(),
            final(self)@ == old(self)@.set(
                PylonGauge::ModelStates,
                seq![source@],
                saturated(count as int),
            ),
    {
        self.show(PylonGauge::ModelStates, &one_label(source), saturating_i64(count as u128));
    }

    /// Counts the removal of a stale entry.
    pub fn observe_engine_stats_stale_cleanup(&mut self, kind: &str, source: &str)
        requires
            old(self).wf(),
        ensures
            final(self).wf(),
            final(self)@ == old(self)@.count(
                PylonCounter::StaleCleanups,
                seq![kind@, source@],
                1,
            ),
    {
        self.count(PylonCounter::StaleCleanups, &two_labels(kind, source), 1);
    }

    /// Counts a snapshot that was not used.
    pub fn observe_engine_stats_dirty_snapshot(&mut self, source: &str, reason: &str)
        requires
            old(self).wf(),
        ensures
            final(self).wf(),
            final(self)@ == old(self)@.count(
                PylonCounter::DirtySnapshots,
                seq![source@, reason@],
                1,
            ),
    {
        self.count(PylonCounter::DirtySnapshots, &two_labels(source, reason), 1);
    }

    /// Counts a change from one source to another.
    pub fn observe_engine_stats_source_transition(&mut self, from: &str, to: &str, reason: &str)
        requires
            old(self).wf(),
        ensures
            final(self).wf(),
            final(self)@ == old(self)@.count(
                PylonCounter::SourceTransitions,
                seq![from@, to@, reason@],
                1,
            ),
    {
        self.count(PylonCounter::SourceTransitions, &three_labels(from, to, reason), 1);
    }

    /// Counts a poll for models by its outcome, and shows the number of models if one is known.
    pub fn observe_model_discovery_poll(
        &mut self,
        provider: &str,
        outcome: &str,
        model_count: Option<usize>,
    )
        requires
            old(self).wf(),
        ensures
            final(self).wf(),
            final(self)@ == polled(old(self)@, provider@, outcome@, model_count),
    {
        self.count(PylonCounter::DiscoveryPolls, &two_labels(provider, outcome), 1);
        match model_count {
            Some(count) => self.show(
                PylonGauge::DiscoveredModels,
                &one_label(provider),
                saturating_i64(count as u128),
            ),
            None => {},
        }
    }

    /// Shows the capabilities and the sources of a model's statistics, and hands back what the
    /// gauges that hold fractions show.
    pub fn observe_model_stats(&mut self, model_id: &str, stats: &CurrentModelStats) -> (values:
        Vec<(PylonFloatGauge, FloatGaugeValue)>)
        requires
            old(self).wf(),
        ensures
            final(self).wf(),
            values@ == model_gauge_values(*stats),
            final(self)@ == with_stats(old(self)@, model_id@, *stats),
    {
        self.mark_each(PylonGauge::StatsCapability, model_id, &stats.stats_capabilities);
        self.mark_each(PylonGauge::StatsSource, model_id, &stats.stats_sources);
        let values: Vec<(PylonFloatGauge, FloatGaugeValue)> = vec![
            (PylonFloatGauge::OutputTps, FloatGaugeValue::Fraction(stats.output_tps)),
            (PylonFloatGauge::EmbeddingItemTps, FloatGaugeValue::Fraction(stats.embedding_item_tps)),
            (
                PylonFloatGauge::LastMeanInputTps,
                FloatGaugeValue::Fraction(stats.last_mean_input_tps),
            ),
            (PylonFloatGauge::MaxOutputTps, FloatGaugeValue::Fraction(stats.max_output_tps)),
            (
                PylonFloatGauge::MaxEmbeddingItemTps,
                FloatGaugeValue::Fraction(stats.max_embedding_item_tps),
            ),
            (PylonFloatGauge::QueueSize, FloatGaugeValue::Number(stats.queue_size)),
            (PylonFloatGauge::QueuedInputTokens, FloatGaugeValue::Number(stats.queued_input_size)),
            (
                PylonFloatGauge::KvCacheCapacityTokens,
                FloatGaugeValue::Number(stats.kv_cache_capacity_tokens),
            ),
            (
                PylonFloatGauge::KvCacheUsedTokens,
                FloatGaugeValue::Number(stats.kv_cache_used_tokens),
            ),
            (
                PylonFloatGauge::KvCacheFreeTokens,
                FloatGaugeValue::Number(stats.kv_cache_free_tokens),
            ),
        ];
        assert(values@ =~= model_gauge_values(*stats));
        values
    }

    fn mark_each(&mut self, family: PylonGauge, model_id: &str, values: &Vec<String>)
        requires
            old(self).wf(),
            family.labels().len() == 2,
        ensures
            final(self).wf(),
            final(self)@ == marked(
                old(self)@,
                family,
                model_id@,
                texts(values@),
                values@.len() as int,
            ),
    {
        let ghost before = self@;
        let mut at: usize = 0;
        while at < values.len()
            invariant
                self.wf(),
                family.labels().len() == 2,
                at <= values@.len(),
                self@ == marked(before, family, model_id@, texts(values@), at as int),
            decreases values@.len() - at,
        {
            self.show(family, &two_labels(model_id, values[at].as_str()), 1);
            at = at + 1;
        }
    }

    fn unmark_each(&mut self, family: PylonGauge, model_id: &str, values: &Vec<String>)
        requires
            old(self).wf(),
            family.labels().len() == 2,
        ensures
            final(self).wf(),
            final(self)@ == unmarked(
                old(self)@,
                family,
                model_id@,
                texts(values@),
                values@.len() as int,
            ),
    {
        let ghost before = self@;
        let mut at: usize = 0;
        while at < values.len()
            invariant
                self.wf(),
                family.labels().len() == 2,
                at <= values@.len(),
                self@ == unmarked(before, family, model_id@, texts(values@), at as int),
            decreases values@.len() - at,
        {
            self.retire(family, &two_labels(model_id, values[at].as_str()));
            at = at + 1;
        }
    }

    /// Shows to a router the status of a model: 1 under the status, 0 under the others.
    pub fn observe_model_advertised_status(
        &mut self,
        router_addr: &str,
        model_id: &str,
        status: InferenceServerStatus,
    )
        requires
            old(self).wf(),
        ensures
            final(self).wf(),
            final(self)@ == advertised(old(self)@, router_addr@, model_id@, status),
    {
        let active: i64 = if status == InferenceServerStatus::Active {
            1
        } else {
            0
        };
        let inactive: i64 = if status == InferenceServerStatus::Inactive {
            1
        } else {
            0
        };
        let unknown: i64 = if status == InferenceServerStatus::Unknown {
            1
        } else {
            0
        };
        self.show(
            PylonGauge::AdvertisedStatus,
            &three_labels(router_addr, model_id, "active"),
            active,
        );
        self.show(
            PylonGauge::AdvertisedStatus,
            &three_labels(router_addr, model_id, "inactive"),
            inactive,
        );
        self.show(
            PylonGauge::AdvertisedStatus,
            &three_labels(router_addr, model_id, "unknown"),
            unknown,
        );
    }

    /// No longer shows to a router the status of a model.
    pub fn remove_model_advertised_status(&mut self, router_addr: &str, model_id: &str)
        requires
            old(self).wf(),
        ensures
            final(self).wf(),
            final(self)@ == not_advertised(old(self)@, router_addr@, model_id@),
    {
        self.retire(
            PylonGauge::AdvertisedStatus,
            &three_labels(router_addr, model_id, "active"),
        );
        self.retire(
            PylonGauge::AdvertisedStatus,
            &three_labels(router_addr, model_id, "inactive"),
        );
        self.retire(
            PylonGauge::AdvertisedStatus,
            &three_labels(router_addr, model_id, "unknown"),
        );
    }

    /// No longer shows the gauges of a model, and hands back the gauges that hold fractions, from
    /// which the model is to be removed too.
    pub fn remove_model_gauges(&mut self, model_id: &str, stats: Option<&CurrentModelStats>) -> (
        gauges: Vec<PylonFloatGauge>)
        requires
            old(self).wf(),
        ensures
            final(self).wf(),
            gauges@ == model_float_gauges(),
            final(self)@ == without_model(old(self)@, model_id@, stats),
    {
        self.retire(PylonGauge::RequestsInflight, &one_label(model_id));
        let ghost before = self@;
        let states: Vec<&str> = vec![
            "queued",
            "upstream_connecting",
            "input_processing",
            "output_generation",
            "complete",
            "failed",
            "cancelled",
        ];
        assert(label_texts(states@) =~= state_labels());
        let mut at: usize = 0;
        while at < states.len()
            invariant
                self.wf(),
                at <= states@.len() == 7,
                label_texts(states@) == state_labels(),
                self@ == without_states(before, model_id@, at as int),
            decreases states@.len() - at,
        {
            let labels: Vec<&str> = two_labels(model_id, states[at]);
            assert(states@[at as int]@ == label_texts(states@)[at as int]);
            self.retire(PylonGauge::RequestsState, &labels);
            self.retire(PylonGauge::RequestsStateInputTokens, &labels);
            at = at + 1;
        }
        match stats {
            Some(stats) => {
                self.unmark_each(PylonGauge::StatsCapability, model_id, &stats.stats_capabilities);
                self.unmark_each(PylonGauge::StatsSource, model_id, &stats.stats_sources);
            },
            None => {},
        }
        let gauges: Vec<PylonFloatGauge> = vec![
            PylonFloatGauge::OutputTps,
            PylonFloatGauge::EmbeddingItemTps,
            PylonFloatGauge::LastMeanInputTps,
            PylonFloatGauge::MaxOutputTps,
            PylonFloatGauge::MaxEmbeddingItemTps,
            PylonFloatGauge::QueueSize,
            PylonFloatGauge::QueuedInputTokens,
            PylonFloatGauge::KvCacheCapacityTokens,
            PylonFloatGauge::KvCacheUsedTokens,
            PylonFloatGauge::KvCacheFreeTokens,
        ];
        assert(gauges@ =~= model_float_gauges());
        gauges
    }

    /// What the histogram of calibrations observes.
    pub fn observe_model_calibration_duration(
        &self,
        model_id: &str,
        duration: TimeSpan,
        outcome: CalibrationOutcome,
    ) -> (sample: HistogramSample)
        ensures
            sample@ == (HistogramSampleView {
                histogram: PylonHistogram::CalibrationDuration,
                labels: seq![model_id@, outcome.label()],
                value: HistogramValue::Millis(duration),
            }),
    {
        let labels: Vec<String> = vec![model_id.to_owned(), outcome.as_str().to_owned()];
        assert(texts(labels@) =~= seq![model_id@, outcome.label()]);
        HistogramSample {
            histogram: PylonHistogram::CalibrationDuration,
            labels,
            value: HistogramValue::Millis(duration),
        }
    }

    /// Shows whether the registration stream to a router is connected.
    pub fn observe_registration_stream_connected(&mut self, router_addr: &str, connected: bool)
        requires
            old(self).wf(),
        ensures
            final(self).wf(),
            final(self)@ == old(self)@.set(
                PylonGauge::RegistrationStreamConnected,
                seq![router_addr@],
                if connected {
                    1
                } else {
                    0
                },
            ),
    {
        let value: i64 = if connected {
            1
        } else {
            0
        };
        self.show(PylonGauge::RegistrationStreamConnected, &one_label(router_addr), value);
    }

    /// Shows whether the reverse tunnel to a router is connected.
    pub fn observe_reverse_tunnel_connected(&mut self, router_addr: &str, connected: bool)
        requires
            old(self).wf(),
        ensures
            final(self).wf(),
            final(self)@ == old(self)@.set(
                PylonGauge::ReverseTunnelConnected,
                seq![router_addr@],
                if connected {
                    1
                } else {
                    0
                },
            ),
    {
        let value: i64 = if connected {
            1
        } else {
            0
        };
        self.show(PylonGauge::ReverseTunnelConnected, &one_label(router_addr), value);
    }

    /// The counter of responses after which a request may be tried again, at 0 if it is new.
    pub fn retryable_responses_total<'a>(
        &'a mut self,
        inference_server_id: &'a str,
        reason: &'a str,
        status: &'a str,
    ) -> (counter: CounterHandle<'a>)
        requires
            old(self).wf(),
        ensures
            counter.wf(),
            counter.family == PylonCounter::RetryableResponses,
            label_texts(counter.labels@) == seq![inference_server_id@, reason@, status@],
            counter.metrics@ == old(self)@.count(
                PylonCounter::RetryableResponses,
                seq![inference_server_id@, reason@, status@],
                0,
            ),
            *final(self) == *final(counter.metrics),
    {
        let labels: Vec<&str> = three_labels(inference_server_id, reason, status);
        self.count(PylonCounter::RetryableResponses, &labels, 0);
        CounterHandle { metrics: self, family: PylonCounter::RetryableResponses, labels }
    }

    /// The counter of failures after which a request may not be tried again, at 0 if it is new.
    pub fn nonretryable_failures_total<'a>(
        &'a mut self,
        inference_server_id: &'a str,
        reason: &'a str,
    ) -> (counter: CounterHandle<'a>)
        requires
            old(self).wf(),
        ensures
            counter.wf(),
            counter.family == PylonCounter::NonretryableFailures,
            label_texts(counter.labels@) == seq![inference_server_id@, reason@],
            counter.metrics@ == old(self)@.count(
                PylonCounter::NonretryableFailures,
                seq![inference_server_id@, reason@],
                0,
            ),
            *final(self) == *final(counter.metrics),
    {
        let labels: Vec<&str> = two_labels(inference_server_id, reason);
        self.count(PylonCounter::NonretryableFailures, &labels, 0);
        CounterHandle { metrics: self, family: PylonCounter::NonretryableFailures, labels }
    }

    /// Counts a decision on a queue, and hands back what the histograms observe: the queueing time
    /// that was expected, and the one that came, as far as they are known.
    pub fn observe_queue_admission_decision(
        &mut self,
        inference_server_id: &str,
        model_id: &str,
        result: &str,
        expected_ms: Option<u64>,
        actual_ms: Option<u64>,
    ) -> (samples: Vec<HistogramSample>)
        requires
            old(self).wf(),
        ensures
            final(self).wf(),
            final(self)@ == old(self)@.count(
                PylonCounter::QueueAdmissionDecisions,
                seq![inference_server_id@, model_id@, result@],
                1,
            ),
            sample_views(samples@) == admission_samples(
                inference_server_id@,
                model_id@,
                expected_ms,
                actual_ms,
            ),
    {
        self.count(
            PylonCounter::QueueAdmissionDecisions,
            &three_labels(inference_server_id, model_id, result),
            1,
        );
        let mut samples: Vec<HistogramSample> = Vec::new();
        match expected_ms {
            Some(number) => samples.push(
                number_sample(
                    PylonHistogram::QueueAdmissionExpected,
                    inference_server_id,
                    model_id,
                    number,
                ),
            ),
            None => {},
        }
        match actual_ms {
            Some(number) => samples.push(
                number_sample(
                    PylonHistogram::QueueAdmissionActual,
                    inference_server_id,
                    model_id,
                    number,
                ),
            ),
            None => {},
        }
        assert(sample_views(samples@) =~= numbered(
            PylonHistogram::QueueAdmissionExpected,
            seq![inference_server_id@, model_id@],
            expected_ms,
        ) + numbered(
            PylonHistogram::QueueAdmissionActual,
            seq![inference_server_id@, model_id@],
            actual_ms,
        ));
        samples
    }

    /// Counts a check of quality by its result.
    pub fn observe_quality_check_result(&mut self, model_id: &str, result: &str)
        requires
            old(self).wf(),
        ensures
            final(self).wf(),
            final(self)@ == old(self)@.count(
                PylonCounter::QualityChecks,
                seq![model_id@, result@],
                1,
            ),
    {
        self.count(PylonCounter::QualityChecks, &two_labels(model_id, result), 1);
    }

    /// Counts a threshold of quality that was met.
    pub fn observe_quality_threshold_match(&mut self, model_id: &str, reason: &str)
        requires
            old(self).wf(),
        ensures
            final(self).wf(),
            final(self)@ == old(self)@.count(
                PylonCounter::QualityThresholdMatches,
                seq![model_id@, reason@],
                1,
            ),
    {
        self.count(PylonCounter::QualityThresholdMatches, &two_labels(model_id, reason), 1);
    }

    fn adjust_observed_request(&mut self, request: &ObservedRequestState, delta: i64)
        requires
            old(self).wf(),
        ensures
            final(self).wf(),
            final(self)@ == adjusted(old(self)@, *request, delta),
    {
        self.shift(PylonGauge::RequestsInflight, &one_label(request.model_id.as_str()), delta);
        self.shift(
            PylonGauge::RequestsState,
            &two_labels(request.model_id.as_str(), request_state_label(request.state)),
            delta,
        );
    }

    fn record_terminal_observation(&mut self, observation: &RequestObservation) -> (samples: Vec<
        HistogramSample,
    >)
        requires
            old(self).wf(),
        ensures
            final(self).wf(),
            final(self)@ == recorded(old(self)@, *observation),
            sample_views(samples@) == observed(*observation),
    {
        let model_id: &str = observation.model_id.as_str();
        let routing_key: &str = match &observation.routing_key {
            Some(key) => key.as_str(),
            None => "",
        };
        let state: &str = request_state_label(observation.state);
        let labels: Vec<&str> = three_labels(model_id, routing_key, state);
        self.count(PylonCounter::Requests, &labels, 1);
        self.count(PylonCounter::RequestInputTokens, &labels, observation.input_tokens);
        self.count(PylonCounter::RequestOutputTokens, &labels, observation.output_tokens);
        if observation.output_tokens_from_chunk_usage {
            let labels_and_source: Vec<&str> = vec![model_id, routing_key, state, "chunk_usage"];
            assert(label_texts(labels_and_source@) =~= label_texts(labels@).push("chunk_usage"@));
            self.count(PylonCounter::RequestStatsSources, &labels_and_source, 1);
        }
        let mut samples: Vec<HistogramSample> = Vec::new();
        match observation.time_to_response_headers {
            Some(span) => samples.push(
                span_sample(PylonHistogram::TimeToResponseHeaders, model_id, routing_key, span),
            ),
            None => {},
        }
        match observation.time_to_first_output {
            Some(span) => samples.push(
                span_sample(PylonHistogram::TimeToFirstOutput, model_id, routing_key, span),
            ),
            None => {},
        }
        match observation.time_to_first_token {
            Some(span) => samples.push(
                span_sample(PylonHistogram::TimeToFirstToken, model_id, routing_key, span),
            ),
            None => {},
        }
        samples.push(
            status_sample(
                PylonHistogram::RequestDuration,
                model_id,
                routing_key,
                state,
                HistogramValue::Seconds(observation.total_duration),
            ),
        );
        samples.push(
            status_sample(
                PylonHistogram::InputTokens,
                model_id,
                routing_key,
                state,
                HistogramValue::Number(observation.input_tokens),
            ),
        );
        samples.push(
            status_sample(
                PylonHistogram::OutputTokens,
                model_id,
                routing_key,
                state,
                HistogramValue::Number(observation.output_tokens),
            ),
        );
        assert(sample_views(samples@) =~= observed(*observation));
        samples
    }
}

/// What is counted is shown: the metrics as text have a line with the count, under the label values
/// that the counter was made with, which are those given unless others with the same key came
/// first.
pub proof fn counted_events_are_shown(
    text: Seq<char>,
    before: PylonSamples,
    family: PylonCounter,
    labels: Seq<Seq<char>>,
    by: u64,
)
    requires
        shows_samples(text, before.count(family, labels, by)),
    ensures
        ({
            let samples = before.counters[family];
            has_line(
                text,
                sample_line(
                    family.exported_name(),
                    family.labels(),
                    counter_labelled(samples, labels),
                    counter_sum(counted(samples, sample_key(labels)), by) as int,
                ),
            )
        }),
{
    counter_places_are_distinct(family);
    let after = before.count(family, labels, by);
    let place = family.place();
    assert(counter_exports(after)[place].0 == counter_described(family));
    counts_are_shown(
        text,
        counter_exports(after),
        gauge_exports(after),
        place,
        before.counters[family],
        labels,
        by,
    );
}

/// What a gauge is set to is shown, under the label values that it was made with.
pub proof fn set_gauges_are_shown(
    text: Seq<char>,
    before: PylonSamples,
    family: PylonGauge,
    labels: Seq<Seq<char>>,
    value: i64,
)
    requires
        shows_samples(text, before.set(family, labels, value)),
    ensures
        has_line(
            text,
            sample_line(
                family.exported_name(),
                family.labels(),
                gauge_labelled(before.gauges[family], labels),
                value as int,
            ),
        ),
{
    gauge_places_are_distinct(family);
    let after = before.set(family, labels, value);
    let place = family.place();
    assert(gauge_exports(after)[place].0 == gauge_described(family));
    assert(gauge_exports(after)[place].1.contains_key(sample_key(labels)));
}

/// Whether samples are those before without the gauges that are gone; everything else is as it
/// was.
pub open spec fn has_lost(
    before: PylonSamples,
    after: PylonSamples,
    gone: spec_fn(PylonGauge, u64) -> bool,
) -> bool {
    &&& after.counters == before.counters
    &&& after.identity_validated == before.identity_validated
    &&& after.identity_not_after == before.identity_not_after
    &&& after.registry == before.registry
    &&& after.shared == before.shared
    &&& forall|family: PylonGauge, key: u64| #[trigger]
        after.gauges[family].contains_key(key) <==> before.gauges[family].contains_key(key)
            && !gone(family, key)
    &&& forall|family: PylonGauge, key: u64| #[trigger]
        after.gauges[family].contains_key(key) ==> after.gauges[family][key]
            == before.gauges[family][key]
}

/// Whether a key is that of a gauge of a model which counts requests or shows what its statistics
/// have.
pub open spec fn is_model_key(
    family: PylonGauge,
    key: u64,
    model_id: Seq<char>,
    stats: CurrentModelStats,
) -> bool {
    match family {
        PylonGauge::RequestsInflight => key == sample_key(seq![model_id]),
        PylonGauge::RequestsState => is_value_key(key, model_id, state_labels(), 7),
        PylonGauge::RequestsStateInputTokens => is_value_key(key, model_id, state_labels(), 7),
        PylonGauge::StatsCapability => is_value_key(
            key,
            model_id,
            texts(stats.stats_capabilities@),
            stats.stats_capabilities@.len() as int,
        ),
        PylonGauge::StatsSource => is_value_key(
            key,
            model_id,
            texts(stats.stats_sources@),
            stats.stats_sources@.len() as int,
        ),
        _ => false,
    }
}

/// Whether a key is that of a model and one of the first `count` values of a second label.
pub open spec fn is_value_key(
    key: u64,
    model_id: Seq<char>,
    values: Seq<Seq<char>>,
    count: int,
) -> bool {
    exists|i: int| 0 <= i < count && key == sample_key(seq![model_id, #[trigger] values[i]])
}

proof fn lemma_states_lost(samples: PylonSamples, model_id: Seq<char>, count: int)
    requires
        0 <= count <= 7,
    ensures
        has_lost(
            samples,
            without_states(samples, model_id, count),
            |family: PylonGauge, key: u64|
                (family is RequestsState || family is RequestsStateInputTokens) && is_value_key(
                    key,
                    model_id,
                    state_labels(),
                    count,
                ),
        ),
    decreases count,
{
    if count > 0 {
        lemma_states_lost(samples, model_id, count - 1);
        lemma_one_value_more(model_id, state_labels(), count);
    }
}

proof fn lemma_values_lost(
    samples: PylonSamples,
    family: PylonGauge,
    model_id: Seq<char>,
    values: Seq<Seq<char>>,
    count: int,
)
    requires
        0 <= count <= values.len(),
    ensures
        has_lost(
            samples,
            unmarked(samples, family, model_id, values, count),
            |other: PylonGauge, key: u64|
                other == family && is_value_key(key, model_id, values, count),
        ),
    decreases count,
{
    if count > 0 {
        lemma_values_lost(samples, family, model_id, values, count - 1);
        lemma_one_value_more(model_id, values, count);
    }
}

proof fn lemma_one_value_more(model_id: Seq<char>, values: Seq<Seq<char>>, count: int)
    requires
        0 < count <= values.len(),
    ensures
        forall|key: u64| #[trigger]
            is_value_key(key, model_id, values, count) <==> is_value_key(
                key,
                model_id,
                values,
                count - 1,
            ) || key == sample_key(seq![model_id, values[count - 1]]),
{
    assert forall|key: u64| #[trigger]
        is_value_key(key, model_id, values, count) <==> is_value_key(
            key,
            model_id,
            values,
            count - 1,
        ) || key == sample_key(seq![model_id, values[count - 1]]) by {
        if key == sample_key(seq![model_id, values[count - 1]]) {
            assert(0 <= count - 1 < count);
        }
    }
}

/// Removing the gauges of a model removes exactly those that count its requests and that show what
/// its statistics have; the gauges of other models, all other gauges, and all counters stay. A
/// second time nothing changes.
pub proof fn retired_models_lose_their_gauges(
    samples: PylonSamples,
    model_id: Seq<char>,
    stats: CurrentModelStats,
)
    ensures
        ({
            let after = without_model(samples, model_id, Some(&stats));
            let again = without_model(after, model_id, Some(&stats));
            &&& has_lost(
                samples,
                after,
                |family: PylonGauge, key: u64| is_model_key(family, key, model_id, stats),
            )
            &&& again.counters == after.counters
            &&& forall|family: PylonGauge| again.gauges[family] == #[trigger] after.gauges[family]
        }),
{
    lemma_model_lost(samples, model_id, stats);
    let after = without_model(samples, model_id, Some(&stats));
    lemma_model_lost(after, model_id, stats);
    let again = without_model(after, model_id, Some(&stats));
    assert forall|family: PylonGauge| again.gauges[family] == #[trigger] after.gauges[family] by {
        assert forall|key: u64|
            again.gauges[family].contains_key(key) == after.gauges[family].contains_key(key) by {}
        assert(again.gauges[family] =~= after.gauges[family]);
    }
}

proof fn lemma_model_lost(samples: PylonSamples, model_id: Seq<char>, stats: CurrentModelStats)
    ensures
        has_lost(
            samples,
            without_model(samples, model_id, Some(&stats)),
            |family: PylonGauge, key: u64| is_model_key(family, key, model_id, stats),
        ),
{
    let capabilities = texts(stats.stats_capabilities@);
    let sources = texts(stats.stats_sources@);
    let first = samples.without(PylonGauge::RequestsInflight, seq![model_id]);
    lemma_states_lost(first, model_id, 7);
    let requests = without_states(first, model_id, 7);
    lemma_values_lost(
        requests,
        PylonGauge::StatsCapability,
        model_id,
        capabilities,
        capabilities.len() as int,
    );
    let rest = unmarked(
        requests,
        PylonGauge::StatsCapability,
        model_id,
        capabilities,
        capabilities.len() as int,
    );
    lemma_values_lost(rest, PylonGauge::StatsSource, model_id, sources, sources.len() as int);
}

/// Once the gauges of a model were removed, no gauge with the model as its first label is left in
/// the families that count requests and that show what statistics have, and so in what is exported
/// of them, as long as those that there were had been made for its statistics and for states.
pub proof fn retired_models_are_not_shown(
    samples: PylonSamples,
    model_id: Seq<char>,
    stats: CurrentModelStats,
    family: PylonGauge,
    key: u64,
)
    requires
        family is RequestsInflight || family is RequestsState || family is RequestsStateInputTokens
            || family is StatsCapability || family is StatsSource,
        samples.gauges[family].contains_key(key) && is_of_model(
            samples.gauges[family][key].0,
            model_id,
        ) ==> is_model_key(family, key, model_id, stats),
    ensures
        ({
            let after = without_model(samples, model_id, Some(&stats)).gauges[family];
            after.contains_key(key) ==> !is_of_model(after[key].0, model_id)
        }),
{
    lemma_model_lost(samples, model_id, stats);
    let after = without_model(samples, model_id, Some(&stats));
    assert(after.gauges[family].contains_key(key) ==> after.gauges[family][key]
        == samples.gauges[family][key]);
}

/// Whether samples have gauges that were not there before only where `new` says so.
pub open spec fn gains_only(
    before: PylonSamples,
    after: PylonSamples,
    new: spec_fn(PylonGauge, u64) -> bool,
) -> bool {
    forall|family: PylonGauge, key: u64| #[trigger]
        after.gauges[family].contains_key(key) ==> before.gauges[family].contains_key(key) || new(
            family,
            key,
        )
}

proof fn lemma_marked_gains(
    samples: PylonSamples,
    family: PylonGauge,
    model_id: Seq<char>,
    values: Seq<Seq<char>>,
    count: int,
)
    requires
        0 <= count <= values.len(),
    ensures
        gains_only(
            samples,
            marked(samples, family, model_id, values, count),
            |other: PylonGauge, key: u64|
                other == family && is_value_key(key, model_id, values, count),
        ),
    decreases count,
{
    if count > 0 {
        lemma_marked_gains(samples, family, model_id, values, count - 1);
        lemma_one_value_more(model_id, values, count);
    }
}

/// Showing a model's statistics makes only gauges that are removed with the model.
pub proof fn shown_statistics_can_be_retired(
    samples: PylonSamples,
    model_id: Seq<char>,
    stats: CurrentModelStats,
)
    ensures
        gains_only(
            samples,
            with_stats(samples, model_id, stats),
            |family: PylonGauge, key: u64| is_model_key(family, key, model_id, stats),
        ),
{
    let capabilities = texts(stats.stats_capabilities@);
    let sources = texts(stats.stats_sources@);
    lemma_marked_gains(
        samples,
        PylonGauge::StatsCapability,
        model_id,
        capabilities,
        capabilities.len() as int,
    );
    let first = marked(
        samples,
        PylonGauge::StatsCapability,
        model_id,
        capabilities,
        capabilities.len() as int,
    );
    lemma_marked_gains(first, PylonGauge::StatsSource, model_id, sources, sources.len() as int);
}

/// The label of a state is one of all.
proof fn lemma_state_label_is_listed(model_id: Seq<char>, state: RequestObservationState)
    ensures
        is_value_key(
            sample_key(seq![model_id, state_label(state)]),
            model_id,
            state_labels(),
            7,
        ),
{
    let at: int = match state {
        RequestObservationState::Queued => 0,
        RequestObservationState::UpstreamConnecting => 1,
        RequestObservationState::InputProcessing => 2,
        RequestObservationState::OutputGeneration => 3,
        RequestObservationState::Complete => 4,
        RequestObservationState::Failed => 5,
        RequestObservationState::Cancelled => 6,
    };
    assert(state_labels()[at] == state_label(state));
}

/// Counting a request in a state, or no longer, makes only gauges that are removed with its model.
pub proof fn counted_requests_can_be_retired(
    samples: PylonSamples,
    request: ObservedRequestState,
    by: i64,
    stats: CurrentModelStats,
)
    ensures
        gains_only(
            samples,
            adjusted(samples, request, by),
            |family: PylonGauge, key: u64| is_model_key(family, key, request.model_id@, stats),
        ),
{
    lemma_state_label_is_listed(request.model_id@, request.state);
}

/// Showing totals of input tokens makes only gauges that are removed with their models.
pub proof fn shown_totals_can_be_retired(
    samples: PylonSamples,
    totals: Seq<StateInputTokens>,
    count: int,
    stats: CurrentModelStats,
)
    requires
        0 <= count <= totals.len(),
    ensures
        gains_only(
            samples,
            with_token_totals(samples, totals, count),
            |family: PylonGauge, key: u64|
                exists|i: int|
                    0 <= i < count && is_model_key(
                        family,
                        key,
                        #[trigger] totals[i].model_id@,
                        stats,
                    ),
        ),
    decreases count,
{
    if count > 0 {
        shown_totals_can_be_retired(samples, totals, count - 1, stats);
        let total = totals[count - 1];
        lemma_state_label_is_listed(total.model_id@, total.state);
        let shorter = with_token_totals(samples, totals, count - 1);
        let longer = with_token_totals(samples, totals, count);
        assert forall|family: PylonGauge, key: u64| #[trigger]
            longer.gauges[family].contains_key(key) implies samples.gauges[family].contains_key(
            key,
        ) || (exists|i: int|
            0 <= i < count && is_model_key(family, key, #[trigger] totals[i].model_id@, stats)) by {
            if shorter.gauges[family].contains_key(key) && !samples.gauges[family].contains_key(
                key,
            ) {
                let i = choose|i: int|
                    0 <= i < count - 1 && is_model_key(
                        family,
                        key,
                        #[trigger] totals[i].model_id@,
                        stats,
                    );
                assert(is_model_key(family, key, totals[i].model_id@, stats));
            } else if !shorter.gauges[family].contains_key(key) {
                assert(is_model_key(family, key, totals[count - 1].model_id@, stats));
            }
        }
    }
}

/// Whether label values begin with a model.
pub open spec fn is_of_model(labels: Seq<Seq<char>>, model_id: Seq<char>) -> bool {
    labels.len() > 0 && labels[0] == model_id
}

/// A request that goes from one state of a model to another leaves the number of the model's
/// requests in flight unchanged, and moves one request from the old state to the new.
pub proof fn a_step_within_a_model_keeps_its_requests(
    samples: PylonSamples,
    observation: RequestObservation,
    transition: RequestObservationTransition,
    prior: ObservedRequestState,
    current: ObservedRequestState,
)
    requires
        !is_over(observation.state),
        transition.prior == Some(prior),
        transition.current == Some(current),
        prior.model_id@ == current.model_id@,
    ensures
        ({
            let before = samples.gauges[PylonGauge::RequestsInflight];
            let after = transitioned(
                samples,
                observation,
                transition,
            ).gauges[PylonGauge::RequestsInflight];
            forall|key: u64| gauged(after, key) == gauged(before, key)
        }),
        ({
            let before = samples.gauges[PylonGauge::RequestsState];
            let after = transitioned(
                samples,
                observation,
                transition,
            ).gauges[PylonGauge::RequestsState];
            let from = sample_key(seq![prior.model_id@, state_label(prior.state)]);
            let to = sample_key(seq![current.model_id@, state_label(current.state)]);
            if from == to {
                forall|key: u64| gauged(after, key) == gauged(before, key)
            } else {
                &&& gauged(after, from) == gauge_sum(gauged(before, from), -1i64)
                &&& gauged(after, to) == gauge_sum(gauged(before, to), 1)
                &&& forall|key: u64|
                    key != from && key != to ==> gauged(after, key) == gauged(before, key)
            }
        }),
{
    let entered = adjusted(adjusted(samples, prior, -1i64), current, 1);
    let after = with_token_totals(
        entered,
        transition.input_token_totals@,
        transition.input_token_totals@.len() as int,
    );
    assert(after == transitioned(samples, observation, transition));
    lemma_totals_keep_other_gauges(
        entered,
        transition.input_token_totals@,
        transition.input_token_totals@.len() as int,
    );
    assert(after.gauges[PylonGauge::RequestsInflight]
        == entered.gauges[PylonGauge::RequestsInflight]);
    assert(after.gauges[PylonGauge::RequestsState] == entered.gauges[PylonGauge::RequestsState]);
}

proof fn lemma_totals_keep_other_gauges(
    samples: PylonSamples,
    totals: Seq<StateInputTokens>,
    count: int,
)
    ensures
        forall|family: PylonGauge|
            family != PylonGauge::RequestsStateInputTokens ==> with_token_totals(
                samples,
                totals,
                count,
            ).gauges[family] == #[trigger] samples.gauges[family],
    decreases count,
{
    if count > 0 {
        lemma_totals_keep_other_gauges(samples, totals, count - 1);
    }
}

/// To fetch a counter counts nothing: what is counted on it later comes to the same as if it had
/// been counted at once.
pub proof fn fetching_a_counter_counts_nothing(
    samples: PylonSamples,
    family: PylonCounter,
    labels: Seq<Seq<char>>,
    by: u64,
)
    ensures
        counted(
            samples.count(family, labels, 0).counters[family],
            sample_key(labels),
        ) == counted(samples.counters[family], sample_key(labels)),
        samples.count(family, labels, 0).count(family, labels, by) == samples.count(
            family,
            labels,
            by,
        ),
{
    let fetched = samples.count(family, labels, 0);
    assert(counted_up(fetched.counters[family], labels, by) =~= counted_up(
        samples.counters[family],
        labels,
        by,
    ));
    assert(fetched.count(family, labels, by) =~= samples.count(family, labels, by));
}

} // verus!
