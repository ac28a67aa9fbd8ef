//! What holds of the metrics of a pylon: what is counted, shown and taken back.

use super::family::{
    counted, counted_up, counter_sum, gauge_moved, gauge_set, gauge_sum, gauged, is_export,
    sample_key,
};
use super::pylon::{
    adjusted, admission_samples, advertised, model_float_gauges, model_gauge_values,
    not_advertised, observed, polled, recorded, request_state_label, saturating_i64,
    state_label, state_labels, transitioned, with_stats, with_token_totals, CalibrationOutcome,
    CurrentModelStats, FloatGaugeValue, HistogramSample, HistogramSampleView, HistogramValue,
    InferenceServerStatus, ObservedRequestState, PylonMetrics, PylonSamples, RequestObservation,
    RequestObservationState, RequestObservationTransition, StateInputTokens, TimeSpan,
};
use super::pylon_families::{
    Descriptor, PylonCounter, PylonFloatGauge, PylonGauge, PylonHistogram,
};
use super::router::{
    reloads_at_zero, router_is_ready, shows_counts, RouterCounts, RouterMetrics,
};
use crate::text::texts;
use vstd::prelude::*;

verus! {

/// The count of a sample.
pub open spec fn count_of(
    samples: PylonSamples,
    family: PylonCounter,
    labels: Seq<Seq<char>>,
) -> u64 {
    counted(samples.counters[family], sample_key(labels))
}

/// The value that a gauge shows.
pub open spec fn value_of(samples: PylonSamples, family: PylonGauge, labels: Seq<Seq<char>>) -> i64 {
    gauged(samples.gauges[family], sample_key(labels))
}

/// Counting raises one sample by as much as is counted and leaves every other one; a gauge that is set
/// shows what it is set to, and one that is moved what it showed and as much more.
pub proof fn samples_change_one_at_a_time(
    counters: Map<u64, (Seq<Seq<char>>, u64)>,
    gauges: Map<u64, (Seq<Seq<char>>, i64)>,
    labels: Seq<Seq<char>>,
    by: u64,
    value: i64,
    other: u64,
)
    ensures
        ({
            let key = sample_key(labels);
            &&& (counted(counted_up(counters, labels, by), key) as int - counted(counters, key)
                - by) % 0x1_0000_0000_0000_0000 == 0
            &&& gauged(gauge_set(gauges, labels, value), key) == value
            &&& (gauged(gauge_moved(gauges, labels, value), key) as int - gauged(gauges, key)
                - value) % 0x1_0000_0000_0000_0000 == 0
            &&& other != key ==> {
                &&& counted(counted_up(counters, labels, by), other) == counted(counters, other)
                &&& gauged(gauge_set(gauges, labels, value), other) == gauged(gauges, other)
                &&& gauged(gauge_moved(gauges, labels, value), other) == gauged(gauges, other)
            }
        }),
{
}

/// The state of a request has a name of its own, and every name is among those that are taken back
/// with a model. A request is over once it is complete, has failed or was cancelled.
pub proof fn states_have_names_of_their_own(
    a: RequestObservationState,
    b: RequestObservationState,
    one: &'static str,
    other: &'static str,
)
    requires
        call_ensures(request_state_label, (a,), one),
        call_ensures(request_state_label, (b,), other),
    ensures
        one@ == other@ <==> a == b,
        state_labels().contains(one@),
        state_labels().len() == 7,
        a is Queued ==> one@ == "queued"@,
        a is UpstreamConnecting ==> one@ == "upstream_connecting"@,
        a is InputProcessing ==> one@ == "input_processing"@,
        a is OutputGeneration ==> one@ == "output_generation"@,
        a is Complete ==> one@ == "complete"@,
        a is Failed ==> one@ == "failed"@,
        a is Cancelled ==> one@ == "cancelled"@,
{
    reveal_strlit("queued");
    reveal_strlit("upstream_connecting");
    reveal_strlit("input_processing");
    reveal_strlit("output_generation");
    reveal_strlit("complete");
    reveal_strlit("failed");
    reveal_strlit("cancelled");
    let labels = state_labels();
    assert(labels.contains(labels[0]) && labels.contains(labels[1]) && labels.contains(labels[2])
        && labels.contains(labels[3]) && labels.contains(labels[4]) && labels.contains(labels[5])
        && labels.contains(labels[6]));
    if a != b && one@.len() == other@.len() {
        assert(one@[0] != other@[0]);
    }
}

/// Whether a request in this state can still go on.
pub open spec fn goes_on(state: RequestObservationState) -> bool {
    state is Queued || state is UpstreamConnecting || state is InputProcessing || state
        is OutputGeneration
}

proof fn lemma_totals_keep_counters(
    samples: PylonSamples,
    totals: Seq<StateInputTokens>,
    count: int,
)
    requires
        0 <= count <= totals.len(),
    ensures
        with_token_totals(samples, totals, count).counters == samples.counters,
        forall|family: PylonGauge|
            !(family is RequestsStateInputTokens) ==> #[trigger] with_token_totals(
                samples,
                totals,
                count,
            ).gauges[family] == samples.gauges[family],
    decreases count,
{
    if count > 0 {
        lemma_totals_keep_counters(samples, totals, count - 1);
    }
}

/// A request that ends is counted once, under its model, routing key and final state, with its tokens;
/// one that goes on is not counted. No other family counts it, but for the source of its statistics
/// where they came with the output.
pub proof fn requests_are_counted_when_they_end(
    samples: PylonSamples,
    observation: RequestObservation,
    transition: RequestObservationTransition,
    terminal: bool,
    state: &'static str,
    labels: Seq<Seq<char>>,
    family: PylonCounter,
)
    requires
        call_ensures(RequestObservation::is_terminal, (&observation,), terminal),
        call_ensures(request_state_label, (observation.state,), state),
        labels.len() == 3,
        labels[0] == observation.model_id@,
        observation.routing_key is Some ==> labels[1] == observation.routing_key->0@,
        observation.routing_key is None ==> labels[1] == ""@,
        labels[2] == state@,
    ensures
        ({
            let after = transitioned(samples, observation, transition);
            &&& terminal <==> !goes_on(observation.state)
            &&& !terminal ==> after.counters[family] == samples.counters[family]
            &&& terminal ==> {
                &&& count_of(after, PylonCounter::Requests, labels) == counter_sum(
                    count_of(samples, PylonCounter::Requests, labels),
                    1,
                )
                &&& count_of(after, PylonCounter::RequestInputTokens, labels) == counter_sum(
                    count_of(samples, PylonCounter::RequestInputTokens, labels),
                    observation.input_tokens,
                )
                &&& count_of(after, PylonCounter::RequestOutputTokens, labels) == counter_sum(
                    count_of(samples, PylonCounter::RequestOutputTokens, labels),
                    observation.output_tokens,
                )
                &&& observation.output_tokens_from_chunk_usage ==> count_of(
                    after,
                    PylonCounter::RequestStatsSources,
                    labels.push("chunk_usage"@),
                ) == counter_sum(
                    count_of(
                        samples,
                        PylonCounter::RequestStatsSources,
                        labels.push("chunk_usage"@),
                    ),
                    1,
                )
                &&& !observation.output_tokens_from_chunk_usage ==> after.counters[
                    PylonCounter::RequestStatsSources] == samples.counters[
                    PylonCounter::RequestStatsSources]
                &&& !(family is Requests || family is RequestInputTokens || family
                    is RequestOutputTokens || family is RequestStatsSources)
                    ==> after.counters[family] == samples.counters[family]
            }
        }),
{
    let own = seq![
        observation.model_id@,
        observation.key_label(),
        state_label(observation.state),
    ];
    assert(labels =~= own);
    let left = match transition.prior {
        Some(prior) => adjusted(samples, prior, -1i64),
        None => samples,
    };
    assert(left.counters == samples.counters);
    let counts = if terminal {
        recorded(left, observation)
    } else {
        left
    };
    let entered = match transition.current {
        Some(current) => adjusted(counts, current, 1),
        None => counts,
    };
    assert(entered.counters == counts.counters);
    lemma_totals_keep_counters(
        entered,
        transition.input_token_totals@,
        transition.input_token_totals@.len() as int,
    );
}

/// A request that comes in is in flight, one that goes is not any more: the gauges of its model and its
/// state go up by one as it comes, and down by one as it goes.
pub proof fn requests_in_flight_are_those_that_came_and_did_not_go(
    samples: PylonSamples,
    observation: RequestObservation,
    transition: RequestObservationTransition,
    request: ObservedRequestState,
    state: &'static str,
)
    requires
        call_ensures(request_state_label, (request.state,), state),
    ensures
        ({
            let after = transitioned(samples, observation, transition);
            let model = seq![request.model_id@];
            let place = seq![request.model_id@, state@];
            &&& transition.prior is None && transition.current == Some(request) ==> {
                &&& value_of(after, PylonGauge::RequestsInflight, model) == gauge_sum(
                    value_of(samples, PylonGauge::RequestsInflight, model),
                    1,
                )
                &&& value_of(after, PylonGauge::RequestsState, place) == gauge_sum(
                    value_of(samples, PylonGauge::RequestsState, place),
                    1,
                )
            }
            &&& transition.prior == Some(request) && transition.current is None ==> {
                &&& value_of(after, PylonGauge::RequestsInflight, model) == gauge_sum(
                    value_of(samples, PylonGauge::RequestsInflight, model),
                    -1i64,
                )
                &&& value_of(after, PylonGauge::RequestsState, place) == gauge_sum(
                    value_of(samples, PylonGauge::RequestsState, place),
                    -1i64,
                )
            }
            &&& transition.prior is None && transition.current is None ==> {
                &&& after.gauges[PylonGauge::RequestsInflight] == samples.gauges[
                    PylonGauge::RequestsInflight]
                &&& after.gauges[PylonGauge::RequestsState] == samples.gauges[
                    PylonGauge::RequestsState]
            }
        }),
{
    let left = match transition.prior {
        Some(prior) => adjusted(samples, prior, -1i64),
        None => samples,
    };
    let counts = if super::pylon::is_over(observation.state) {
        recorded(left, observation)
    } else {
        left
    };
    assert(counts.gauges == left.gauges);
    let entered = match transition.current {
        Some(current) => adjusted(counts, current, 1),
        None => counts,
    };
    lemma_totals_keep_counters(
        entered,
        transition.input_token_totals@,
        transition.input_token_totals@.len() as int,
    );
}

/// The input tokens of a state are shown as the last total that is given for it, or the largest number
/// that a gauge shows.
pub proof fn the_last_total_of_a_state_is_shown(
    samples: PylonSamples,
    totals: Seq<StateInputTokens>,
    count: int,
    i: int,
    state: &'static str,
)
    requires
        0 <= i < count <= totals.len(),
        call_ensures(request_state_label, (totals[i].state,), state),
        forall|j: int|
            i < j < count ==> sample_key(
                seq![(#[trigger] totals[j]).model_id@, state_label(totals[j].state)],
            ) != sample_key(seq![totals[i].model_id@, state@]),
    ensures
        ({
            let shown = value_of(
                with_token_totals(samples, totals, count),
                PylonGauge::RequestsStateInputTokens,
                seq![totals[i].model_id@, state@],
            );
            &&& totals[i].input_tokens <= i64::MAX ==> shown == totals[i].input_tokens
            &&& totals[i].input_tokens > i64::MAX ==> shown == i64::MAX
        }),
    decreases count,
{
    if i < count - 1 {
        the_last_total_of_a_state_is_shown(samples, totals, count - 1, i, state);
        assert(sample_key(
            seq![totals[count - 1].model_id@, state_label(totals[count - 1].state)],
        ) != sample_key(seq![totals[i].model_id@, state@]));
    }
}

/// A number is shown as it is, as long as gauges can show it, and as the largest that they can beyond.
pub proof fn large_numbers_are_shown_as_the_largest(value: u128, shown: i64)
    requires
        call_ensures(saturating_i64, (value,), shown),
    ensures
        value < 0x8000_0000_0000_0000 ==> shown == value,
        value >= 0x8000_0000_0000_0000 ==> shown == i64::MAX,
{
}

/// Of the statuses of a model the one that a router is told shows 1 and the others 0, and nothing of
/// them is left once the router is told none.
pub proof fn one_status_is_advertised(
    samples: PylonSamples,
    router: Seq<char>,
    model_id: Seq<char>,
    status: InferenceServerStatus,
)
    requires
        sample_key(seq![router, model_id, "active"@]) != sample_key(
            seq![router, model_id, "inactive"@],
        ),
        sample_key(seq![router, model_id, "active"@]) != sample_key(
            seq![router, model_id, "unknown"@],
        ),
        sample_key(seq![router, model_id, "inactive"@]) != sample_key(
            seq![router, model_id, "unknown"@],
        ),
    ensures
        ({
            let after = advertised(samples, router, model_id, status);
            let active = value_of(
                after,
                PylonGauge::AdvertisedStatus,
                seq![router, model_id, "active"@],
            );
            let inactive = value_of(
                after,
                PylonGauge::AdvertisedStatus,
                seq![router, model_id, "inactive"@],
            );
            let unknown = value_of(
                after,
                PylonGauge::AdvertisedStatus,
                seq![router, model_id, "unknown"@],
            );
            &&& active + inactive + unknown == 1
            &&& active == 1 <==> status is Active
            &&& inactive == 1 <==> status is Inactive
            &&& unknown == 1 <==> status is Unknown
            &&& active >= 0 && inactive >= 0 && unknown >= 0
        }),
        ({
            let gone = not_advertised(
                advertised(samples, router, model_id, status),
                router,
                model_id,
            ).gauges[PylonGauge::AdvertisedStatus];
            &&& !gone.contains_key(sample_key(seq![router, model_id, "active"@]))
            &&& !gone.contains_key(sample_key(seq![router, model_id, "inactive"@]))
            &&& !gone.contains_key(sample_key(seq![router, model_id, "unknown"@]))
        }),
{
}

/// Every poll for models is counted by its outcome; the number of models is shown only if it is known.
pub proof fn polls_are_counted_by_their_outcome(
    samples: PylonSamples,
    provider: Seq<char>,
    outcome: Seq<char>,
    model_count: Option<usize>,
)
    ensures
        ({
            let after = polled(samples, provider, outcome, model_count);
            &&& count_of(after, PylonCounter::DiscoveryPolls, seq![provider, outcome])
                == counter_sum(
                count_of(samples, PylonCounter::DiscoveryPolls, seq![provider, outcome]),
                1,
            )
            &&& model_count is None ==> after.gauges == samples.gauges
            &&& model_count matches Some(count) ==> count <= i64::MAX ==> value_of(
                after,
                PylonGauge::DiscoveredModels,
                seq![provider],
            ) == count
        }),
{
}

/// A request that ends is recorded with its duration and its tokens, and with the times that are known
/// of it: to the response, to the first output, to the first token. Times are recorded under its model
/// and routing key, the rest under its final state as well.
pub proof fn ended_requests_are_recorded_with_what_is_known(
    observation: RequestObservation,
    span: TimeSpan,
    pair: Seq<Seq<char>>,
    labels: Seq<Seq<char>>,
    state: &'static str,
)
    requires
        call_ensures(request_state_label, (observation.state,), state),
        pair.len() == 2,
        pair[0] == observation.model_id@,
        observation.routing_key is Some ==> pair[1] == observation.routing_key->0@,
        observation.routing_key is None ==> pair[1] == ""@,
        labels == pair.push(state@),
    ensures
        ({
            let samples = observed(observation);
            &&& samples.contains(
                HistogramSampleView {
                    histogram: PylonHistogram::TimeToResponseHeaders,
                    labels: pair,
                    value: HistogramValue::Seconds(span),
                },
            ) <==> observation.time_to_response_headers == Some(span)
            &&& samples.contains(
                HistogramSampleView {
                    histogram: PylonHistogram::TimeToFirstOutput,
                    labels: pair,
                    value: HistogramValue::Seconds(span),
                },
            ) <==> observation.time_to_first_output == Some(span)
            &&& samples.contains(
                HistogramSampleView {
                    histogram: PylonHistogram::TimeToFirstToken,
                    labels: pair,
                    value: HistogramValue::Seconds(span),
                },
            ) <==> observation.time_to_first_token == Some(span)
            &&& samples.contains(
                HistogramSampleView {
                    histogram: PylonHistogram::RequestDuration,
                    labels,
                    value: HistogramValue::Seconds(span),
                },
            ) <==> observation.total_duration == span
            &&& samples.contains(
                HistogramSampleView {
                    histogram: PylonHistogram::InputTokens,
                    labels,
                    value: HistogramValue::Number(observation.input_tokens),
                },
            )
            &&& samples.contains(
                HistogramSampleView {
                    histogram: PylonHistogram::OutputTokens,
                    labels,
                    value: HistogramValue::Number(observation.output_tokens),
                },
            )
        }),
{
    let own_pair = seq![observation.model_id@, observation.key_label()];
    let own = seq![
        observation.model_id@,
        observation.key_label(),
        state_label(observation.state),
    ];
    assert(pair =~= own_pair);
    assert(labels =~= own);
    let response = super::pylon::timed(
        PylonHistogram::TimeToResponseHeaders,
        own_pair,
        observation.time_to_response_headers,
    );
    let output = super::pylon::timed(
        PylonHistogram::TimeToFirstOutput,
        own_pair,
        observation.time_to_first_output,
    );
    let token = super::pylon::timed(
        PylonHistogram::TimeToFirstToken,
        own_pair,
        observation.time_to_first_token,
    );
    let samples = observed(observation);
    let a = response.len() as int;
    let b = a + output.len();
    let c = b + token.len();
    assert(samples.len() == c + 3);
    assert(a == 1 ==> samples[0] == response[0]);
    assert(b > a ==> samples[a] == output[0]);
    assert(c > b ==> samples[b] == token[0]);
    assert(samples[c].histogram is RequestDuration);
    assert(samples[c + 1].histogram is InputTokens);
    assert(samples[c + 2].histogram is OutputTokens);
    assert forall|i: int| 0 <= i < samples.len() implies {
        &&& (#[trigger] samples[i]).histogram is TimeToResponseHeaders ==> a == 1 && i == 0
        &&& samples[i].histogram is TimeToFirstOutput ==> b > a && i == a
        &&& samples[i].histogram is TimeToFirstToken ==> c > b && i == b
        &&& samples[i].histogram is RequestDuration ==> i == c
    } by {
        if i < a {
            assert(samples[i] == response[i]);
        } else if i < b {
            assert(samples[i] == output[i - a]);
        } else if i < c {
            assert(samples[i] == token[i - b]);
        }
    }
}

/// A decision on admission is recorded with the times that are known, each under its own name.
pub proof fn admissions_are_recorded_with_what_is_known(
    inference_server_id: Seq<char>,
    model_id: Seq<char>,
    expected_ms: Option<u64>,
    actual_ms: Option<u64>,
    number: u64,
)
    ensures
        ({
            let samples = admission_samples(
                inference_server_id,
                model_id,
                expected_ms,
                actual_ms,
            );
            let labels = seq![inference_server_id, model_id];
            &&& samples.contains(
                HistogramSampleView {
                    histogram: PylonHistogram::QueueAdmissionExpected,
                    labels,
                    value: HistogramValue::Number(number),
                },
            ) <==> expected_ms == Some(number)
            &&& samples.contains(
                HistogramSampleView {
                    histogram: PylonHistogram::QueueAdmissionActual,
                    labels,
                    value: HistogramValue::Number(number),
                },
            ) <==> actual_ms == Some(number)
        }),
{
    let samples = admission_samples(inference_server_id, model_id, expected_ms, actual_ms);
    if expected_ms is Some {
        assert(samples[0].histogram is QueueAdmissionExpected);
        if actual_ms is Some {
            assert(samples[1].histogram is QueueAdmissionActual);
        }
    } else if actual_ms is Some {
        assert(samples[0].histogram is QueueAdmissionActual);
    }
}

/// A calibration is recorded in milliseconds, under its model and how it ended.
pub proof fn calibrations_are_recorded_by_their_outcome(
    metrics: PylonMetrics,
    model_id: &str,
    duration: TimeSpan,
    outcome: CalibrationOutcome,
    sample: HistogramSample,
)
    requires
        call_ensures(
            PylonMetrics::observe_model_calibration_duration,
            (&metrics, model_id, duration, outcome),
            sample,
        ),
    ensures
        sample.histogram is CalibrationDuration,
        sample.value == HistogramValue::Millis(duration),
        sample.labels@.len() == 2,
        sample.labels@[0]@ == model_id@,
        outcome is Completed ==> sample.labels@[1]@ == "completed"@,
        outcome is Error ==> sample.labels@[1]@ == "error"@,
        outcome is Cancelled ==> sample.labels@[1]@ == "cancelled"@,
{
    let labels = texts(sample.labels@);
    assert(labels == seq![model_id@, outcome.label()]);
    assert(labels.len() == 2);
    assert(labels[0] == sample.labels@[0]@);
    assert(labels[1] == sample.labels@[1]@);
}

/// The statistics of a model are shown by the gauges that bear their names, and the gauges that are
/// taken back with a model are the same.
pub proof fn statistics_are_shown_by_their_gauges(stats: CurrentModelStats, value: FloatGaugeValue)
    ensures
        ({
            let shown = model_gauge_values(stats);
            &&& shown.contains((PylonFloatGauge::OutputTps, value)) <==> value
                == FloatGaugeValue::Fraction(stats.output_tps)
            &&& shown.contains((PylonFloatGauge::EmbeddingItemTps, value)) <==> value
                == FloatGaugeValue::Fraction(stats.embedding_item_tps)
            &&& shown.contains((PylonFloatGauge::LastMeanInputTps, value)) <==> value
                == FloatGaugeValue::Fraction(stats.last_mean_input_tps)
            &&& shown.contains((PylonFloatGauge::MaxOutputTps, value)) <==> value
                == FloatGaugeValue::Fraction(stats.max_output_tps)
            &&& shown.contains((PylonFloatGauge::MaxEmbeddingItemTps, value)) <==> value
                == FloatGaugeValue::Fraction(stats.max_embedding_item_tps)
            &&& shown.contains((PylonFloatGauge::QueueSize, value)) <==> value
                == FloatGaugeValue::Number(stats.queue_size)
            &&& shown.contains((PylonFloatGauge::QueuedInputTokens, value)) <==> value
                == FloatGaugeValue::Number(stats.queued_input_size)
            &&& shown.contains((PylonFloatGauge::KvCacheCapacityTokens, value)) <==> value
                == FloatGaugeValue::Number(stats.kv_cache_capacity_tokens)
            &&& shown.contains((PylonFloatGauge::KvCacheUsedTokens, value)) <==> value
                == FloatGaugeValue::Number(stats.kv_cache_used_tokens)
            &&& shown.contains((PylonFloatGauge::KvCacheFreeTokens, value)) <==> value
                == FloatGaugeValue::Number(stats.kv_cache_free_tokens)
            &&& shown.len() == model_float_gauges().len()
            &&& forall|i: int|
                0 <= i < shown.len() ==> (#[trigger] shown[i]).0 == model_float_gauges()[i]
        }),
{
    let shown = model_gauge_values(stats);
    assert(shown[0].0 is OutputTps && shown[1].0 is EmbeddingItemTps && shown[2].0
        is LastMeanInputTps && shown[3].0 is MaxOutputTps && shown[4].0 is MaxEmbeddingItemTps);
    assert(shown[5].0 is QueueSize && shown[6].0 is QueuedInputTokens && shown[7].0
        is KvCacheCapacityTokens && shown[8].0 is KvCacheUsedTokens && shown[9].0
        is KvCacheFreeTokens);
    assert(shown.contains(shown[0]) && shown.contains(shown[1]) && shown.contains(shown[2])
        && shown.contains(shown[3]) && shown.contains(shown[4]));
    assert(shown.contains(shown[5]) && shown.contains(shown[6]) && shown.contains(shown[7])
        && shown.contains(shown[8]) && shown.contains(shown[9]));
}

/// A pylon is ready once its identity has been validated and while it has not expired; a router is
/// ready with a ready identity and at least one target that it knows to be ready.
pub proof fn readiness_needs_a_valid_identity(
    pylon: PylonMetrics,
    router: RouterMetrics,
    now: Option<u64>,
    pylon_ready: bool,
    identity_ready: bool,
    targets_known: bool,
    ready_targets: usize,
    router_ready: bool,
)
    requires
        call_ensures(PylonMetrics::tls_identity_is_ready_at, (&pylon, now), pylon_ready),
        call_ensures(RouterMetrics::tls_identity_is_ready_at, (&router, now), identity_ready),
        call_ensures(
            router_is_ready,
            (targets_known, ready_targets, identity_ready),
            router_ready,
        ),
    ensures
        pylon_ready <==> pylon@.identity_validated && (pylon@.identity_not_after == i64::MAX || (now
            is Some && now->0 <= pylon@.identity_not_after)),
        identity_ready <==> router@.identity_not_after == i64::MAX || (now is Some && now->0
            <= router@.identity_not_after),
        router_ready ==> identity_ready && targets_known && ready_targets >= 1,
        identity_ready && targets_known && ready_targets >= 1 ==> router_ready,
{
}

/// Reloads are shown from the start, at none, for both kinds of material and both results.
pub proof fn reloads_are_shown_from_the_start(material: Seq<char>, result: Seq<char>)
    requires
        material == "server_identity"@ || material == "client_trust"@,
        result == "success"@ || result == "rejected"@,
    ensures
        reloads_at_zero(Map::empty()).contains_key(sample_key(seq![material, result])),
        counted(reloads_at_zero(Map::empty()), sample_key(seq![material, result])) == 0,
{
}

/// What is told of a request is told by its model, its routing key and how it ended; what is told of a
/// model by its model; what is told of a router by its address.
pub proof fn families_tell_samples_apart_by_their_labels(
    counter: PylonCounter,
    gauge: PylonGauge,
    float: PylonFloatGauge,
    histogram: PylonHistogram,
)
    ensures
        counter is Requests || counter is RequestInputTokens || counter is RequestOutputTokens
            ==> counter.labels() == seq!["model"@, "routing_key"@, "status"@],
        counter is RequestStatsSources ==> counter.labels() == seq![
            "model"@,
            "routing_key"@,
            "status"@,
            "source"@,
        ],
        counter is TlsReloads ==> counter.labels() == seq!["material_type"@, "result"@],
        counter is StreamEvents ==> counter.labels() == seq!["type"@],
        counter is StreamInvalidEvents || counter is StreamReconnects ==> counter.labels()
            == seq!["reason"@],
        counter is StaleCleanups ==> counter.labels() == seq!["kind"@, "source"@],
        counter is DirtySnapshots ==> counter.labels() == seq!["source"@, "reason"@],
        counter is SourceTransitions ==> counter.labels() == seq!["from"@, "to"@, "reason"@],
        counter is DiscoveryPolls ==> counter.labels() == seq!["provider"@, "outcome"@],
        counter is RetryableResponses ==> counter.labels() == seq![
            "inference_server_id"@,
            "reason"@,
            "status"@,
        ],
        counter is NonretryableFailures ==> counter.labels() == seq![
            "inference_server_id"@,
            "reason"@,
        ],
        counter is QueueAdmissionDecisions ==> counter.labels() == seq![
            "inference_server_id"@,
            "model_id"@,
            "result"@,
        ],
        counter is QualityChecks ==> counter.labels() == seq!["model"@, "result"@],
        counter is QualityThresholdMatches ==> counter.labels() == seq!["model"@, "reason"@],
        gauge is RegistrationStreamConnected || gauge is ReverseTunnelConnected ==> gauge.labels()
            == seq!["router"@],
        gauge is RequestsInflight ==> gauge.labels() == seq!["model"@],
        gauge is RequestsState || gauge is RequestsStateInputTokens ==> gauge.labels() == seq![
            "model"@,
            "state"@,
        ],
        gauge is LiveRequests || gauge is ModelStates ==> gauge.labels() == seq!["source"@],
        gauge is StreamConnected ==> gauge.labels() == seq!["mode"@],
        gauge is DiscoveredModels ==> gauge.labels() == seq!["provider"@],
        gauge is StatsCapability ==> gauge.labels() == seq!["model"@, "capability"@],
        gauge is StatsSource ==> gauge.labels() == seq!["model"@, "source"@],
        gauge is AdvertisedStatus ==> gauge.labels() == seq!["router"@, "model"@, "status"@],
        gauge is TlsCertificateExpiry ==> gauge.labels() == seq!["material_type"@],
        float.labels() == seq!["model"@],
        float is MaxOutputTps ==> float.exported_name() == "pylon_model_max_output_tps"@,
        float is KvCacheCapacityTokens ==> float.exported_name()
            == "pylon_model_kv_cache_capacity_tokens"@,
        float is KvCacheUsedTokens ==> float.exported_name()
            == "pylon_model_kv_cache_used_tokens"@,
        histogram is TimeToFirstOutput ==> histogram.exported_name()
            == "pylon_request_time_to_first_output_seconds"@,
        histogram is TimeToResponseHeaders || histogram is TimeToFirstOutput || histogram
            is TimeToFirstToken ==> histogram.labels() == seq!["model"@, "routing_key"@],
        histogram is RequestDuration || histogram is InputTokens || histogram is OutputTokens
            ==> histogram.labels() == seq!["model"@, "routing_key"@, "status"@],
        histogram is CalibrationDuration ==> histogram.labels() == seq!["model"@, "outcome"@],
        histogram is QueueAdmissionExpected || histogram is QueueAdmissionActual
            ==> histogram.labels() == seq!["inference_server_id"@, "model_id"@],
{
}

/// A counter is exported under its name, and says what it is about.
pub proof fn counters_say_what_they_are_about(family: PylonCounter, descriptor: Descriptor)
    requires
        call_ensures(PylonCounter::descriptor, (family,), descriptor),
    ensures
        family is TlsReloads ==> descriptor.name@ == "pylon_tls_reloads_total"@ && descriptor.help@
            == "TLS material reload attempts by material type and result"@,
        family is Requests ==> descriptor.name@ == "pylon_requests_total"@ && descriptor.help@
            == "Total number of terminal requests observed by pylon"@,
        family is RequestInputTokens ==> descriptor.name@ == "pylon_request_input_tokens_total"@ && descriptor.help@
            == "Total input tokens observed on terminal requests"@,
        family is RequestOutputTokens ==> descriptor.name@ == "pylon_request_output_tokens_total"@ && descriptor.help@
            == "Total output tokens observed on terminal requests"@,
        family is RequestStatsSources ==> descriptor.name@ == "pylon_request_stats_sources_total"@ && descriptor.help@
            == "Total terminal requests by stats source observed by pylon"@,
        family is StreamEvents ==> descriptor.name@ == "pylon_engine_stats_stream_events_total"@ && descriptor.help@
            == "Total engine stats stream events ingested by type"@,
        family is StreamInvalidEvents ==> descriptor.name@ == "pylon_engine_stats_stream_invalid_events_total"@ && descriptor.help@
            == "Total invalid engine stats stream events by reason"@,
        family is StreamReconnects ==> descriptor.name@ == "pylon_engine_stats_stream_reconnects_total"@ && descriptor.help@
            == "Total engine stats stream reconnect attempts by reason"@,
        family is StaleCleanups ==> descriptor.name@ == "pylon_engine_stats_stale_cleanups_total"@ && descriptor.help@
            == "Total stale engine stats cleanups by kind and source"@,
        family is DirtySnapshots ==> descriptor.name@ == "pylon_engine_stats_dirty_snapshots_total"@ && descriptor.help@
            == "Total engine stats model snapshots marked dirty by source and reason"@,
        family is SourceTransitions ==> descriptor.name@ == "pylon_engine_stats_source_transitions_total"@ && descriptor.help@
            == "Total engine stats source-selection transitions"@,
        family is DiscoveryPolls ==> descriptor.name@ == "pylon_model_discovery_polls_total"@ && descriptor.help@
            == "Total model-discovery polls by provider and outcome"@,
        family is RetryableResponses ==> descriptor.name@ == "pylon_retryable_responses_total"@ && descriptor.help@
            == "Total number of retryable responses emitted or relayed by pylon"@,
        family is NonretryableFailures ==> descriptor.name@ == "pylon_nonretryable_failures_total"@ && descriptor.help@
            == "Total number of upstream failures not marked retryable by pylon"@,
        family is QueueAdmissionDecisions ==> descriptor.name@ == "pylon_queue_admission_decisions_total"@ && descriptor.help@
            == "Total number of local queue mismatch admission decisions"@,
        family is QualityChecks ==> descriptor.name@ == "pylon_quality_checks_total"@ && descriptor.help@
            == "Total number of quality checks by result"@,
        family is QualityThresholdMatches ==> descriptor.name@ == "pylon_quality_threshold_matches_total"@ && descriptor.help@
            == "Total number of requests that matched a quality threshold"@,
{
}

/// A gauge is exported under its name, and says what it is about.
pub proof fn gauges_say_what_they_are_about(family: PylonGauge, descriptor: Descriptor)
    requires
        call_ensures(PylonGauge::descriptor, (family,), descriptor),
    ensures
        family is TargetInfo ==> descriptor.name@ == "target_info"@ && descriptor.help@
            == "Target metadata"@,
        family is RegistrationStreamConnected ==> descriptor.name@ == "pylon_registration_stream_connected"@ && descriptor.help@
            == "Binary gauge: 1 when a stargate registration stream is connected"@,
        family is ReverseTunnelConnected ==> descriptor.name@ == "pylon_reverse_tunnel_connected"@ && descriptor.help@
            == "Binary gauge: 1 when a reverse QUIC tunnel is connected to a stargate router"@,
        family is TlsCertificateExpiry ==> descriptor.name@ == "pylon_tls_certificate_expiry_seconds"@ && descriptor.help@
            == "Unix timestamp when the active TLS certificate expires"@,
        family is RequestsInflight ==> descriptor.name@ == "pylon_requests_inflight"@ && descriptor.help@
            == "Current number of observed requests in flight"@,
        family is RequestsState ==> descriptor.name@ == "pylon_requests_state"@ && descriptor.help@
            == "Current number of observed requests by client-side lifecycle state"@,
        family is RequestsStateInputTokens ==> descriptor.name@ == "pylon_requests_state_input_tokens"@ && descriptor.help@
            == "Current input tokens for observed requests by client-side lifecycle state"@,
        family is StreamConnected ==> descriptor.name@ == "pylon_engine_stats_stream_connected"@ && descriptor.help@
            == "Binary gauge: 1 when the engine stats stream is connected"@,
        family is LiveRequests ==> descriptor.name@ == "pylon_engine_stats_live_requests"@ && descriptor.help@
            == "Current live request stats entries by source"@,
        family is ModelStates ==> descriptor.name@ == "pylon_engine_stats_model_states"@ && descriptor.help@
            == "Current engine stats aggregate model states by source"@,
        family is DiscoveredModels ==> descriptor.name@ == "pylon_model_discovery_models"@ && descriptor.help@
            == "Model count from the last valid discovery response"@,
        family is StatsCapability ==> descriptor.name@ == "pylon_model_stats_capability"@ && descriptor.help@
            == "Binary gauge for observed stats capability labels by model"@,
        family is StatsSource ==> descriptor.name@ == "pylon_model_stats_source"@ && descriptor.help@
            == "Binary gauge for observed stats source labels by model"@,
        family is AdvertisedStatus ==> descriptor.name@ == "pylon_model_advertised_status"@ && descriptor.help@
            == "Current model status advertised to each stargate router; the active status label is 1 and other status labels are 0"@,
{
}

/// A gauge of fractions is exported under its name, and says what it is about.
pub proof fn float_gauges_say_what_they_are_about(family: PylonFloatGauge, descriptor: Descriptor)
    requires
        call_ensures(PylonFloatGauge::descriptor, (family,), descriptor),
    ensures
        family is OutputTps ==> descriptor.name@ == "pylon_model_output_tps"@ && descriptor.help@
            == "Current output TPS by model"@,
        family is EmbeddingItemTps ==> descriptor.name@ == "pylon_model_embedding_item_tps"@ && descriptor.help@
            == "Current embeddings item throughput by model"@,
        family is LastMeanInputTps ==> descriptor.name@ == "pylon_model_last_mean_input_tps"@ && descriptor.help@
            == "Last valid mean input TPS by model"@,
        family is MaxOutputTps ==> descriptor.name@ == "pylon_model_max_output_tps"@ && descriptor.help@
            == "Observed max output TPS by model"@,
        family is MaxEmbeddingItemTps ==> descriptor.name@ == "pylon_model_max_embedding_item_tps"@ && descriptor.help@
            == "Observed max embeddings item throughput by model"@,
        family is QueueSize ==> descriptor.name@ == "pylon_model_queue_size"@ && descriptor.help@
            == "Current queued request count by model"@,
        family is QueuedInputTokens ==> descriptor.name@ == "pylon_model_queued_input_tokens"@ && descriptor.help@
            == "Current queued input tokens by model"@,
        family is KvCacheCapacityTokens ==> descriptor.name@ == "pylon_model_kv_cache_capacity_tokens"@ && descriptor.help@
            == "Current KV cache capacity tokens by model"@,
        family is KvCacheUsedTokens ==> descriptor.name@ == "pylon_model_kv_cache_used_tokens"@ && descriptor.help@
            == "Current KV cache used tokens by model"@,
        family is KvCacheFreeTokens ==> descriptor.name@ == "pylon_model_kv_cache_free_tokens"@ && descriptor.help@
            == "Current KV cache free tokens by model"@,
{
}

/// A histogram is exported under its name, and says what it is about.
pub proof fn histograms_say_what_they_are_about(family: PylonHistogram, descriptor: Descriptor)
    requires
        call_ensures(PylonHistogram::descriptor, (family,), descriptor),
    ensures
        family is TimeToResponseHeaders ==> descriptor.name@ == "pylon_request_time_to_response_headers_seconds"@ && descriptor.help@
            == "Time from request start to upstream response headers"@,
        family is TimeToFirstOutput ==> descriptor.name@ == "pylon_request_time_to_first_output_seconds"@ && descriptor.help@
            == "Time from request start to first observed output message"@,
        family is TimeToFirstToken ==> descriptor.name@ == "pylon_request_time_to_first_token_seconds"@ && descriptor.help@
            == "Time from request start to first observed output token"@,
        family is RequestDuration ==> descriptor.name@ == "pylon_request_duration_seconds"@ && descriptor.help@
            == "Total observed duration for terminal requests"@,
        family is InputTokens ==> descriptor.name@ == "pylon_request_input_tokens"@ && descriptor.help@
            == "Input tokens per terminal request"@,
        family is OutputTokens ==> descriptor.name@ == "pylon_request_output_tokens"@ && descriptor.help@
            == "Output tokens per terminal request"@,
        family is CalibrationDuration ==> descriptor.name@ == "pylon_model_calibration_duration_ms"@ && descriptor.help@
            == "Per-generation calibration traffic-ramp duration in milliseconds by model and outcome"@,
        family is QueueAdmissionExpected ==> descriptor.name@ == "pylon_queue_admission_expected_ms"@ && descriptor.help@
            == "Expected queue milliseconds received from Stargate for local queue admission"@,
        family is QueueAdmissionActual ==> descriptor.name@ == "pylon_queue_admission_actual_ms"@ && descriptor.help@
            == "Actual local queue milliseconds used for queue mismatch admission"@,
{
}

/// The router exports its counters and its gauge each under its own name, with what it is about and
/// the labels that tell its samples apart.
pub proof fn the_router_exports_what_it_counts(text: Seq<char>, counts: RouterCounts)
    requires
        shows_counts(text, counts),
    ensures
        is_export(
            text,
            seq![
                (
                    (
                        "stargate_k8s_router_quic_connections_total"@,
                        "QUIC reverse-tunnel router connections by outcome."@,
                        seq!["outcome"@],
                    ),
                    counts.quic_connections,
                ),
                (
                    (
                        "stargate_k8s_router_webtransport_sessions_total"@,
                        "WebTransport reverse-tunnel router sessions by outcome."@,
                        seq!["outcome"@],
                    ),
                    counts.webtransport_sessions,
                ),
                (
                    (
                        "stargate_k8s_router_tls_reloads_total"@,
                        "TLS material reload attempts by material type and result."@,
                        seq!["material_type"@, "result"@],
                    ),
                    counts.tls_reloads,
                ),
            ],
            seq![
                (
                    (
                        "stargate_k8s_router_tls_certificate_expiry_seconds"@,
                        "Unix timestamp when the active TLS certificate expires."@,
                        seq!["material_type"@],
                    ),
                    counts.tls_expiry,
                ),
            ],
        ),
{
}

} // verus!
