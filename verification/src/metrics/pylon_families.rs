//! The metrics that a pylon exports: their names, descriptions and labels.

use super::family::label_texts;
use vstd::prelude::*;

verus! {

/// The name, the description and the labels of a family.
pub struct Descriptor {
    pub name: &'static str,
    pub help: &'static str,
    pub labels: Vec<&'static str>,
}

/// A family of counters.
#[derive(Clone, Copy, Debug, PartialEq, Eq, Structural)]
pub enum PylonCounter {
    TlsReloads,
    Requests,
    RequestInputTokens,
    RequestOutputTokens,
    RequestStatsSources,
    StreamEvents,
    StreamInvalidEvents,
    StreamReconnects,
    StaleCleanups,
    DirtySnapshots,
    SourceTransitions,
    DiscoveryPolls,
    RetryableResponses,
    NonretryableFailures,
    QueueAdmissionDecisions,
    QualityChecks,
    QualityThresholdMatches,
}

impl PylonCounter {
    /// The labels of the family.
    pub open spec fn labels(self) -> Seq<Seq<char>> {
        match self {
            PylonCounter::TlsReloads => seq!["material_type"@, "result"@],
            PylonCounter::Requests => seq!["model"@, "routing_key"@, "status"@],
            PylonCounter::RequestInputTokens => seq!["model"@, "routing_key"@, "status"@],
            PylonCounter::RequestOutputTokens => seq!["model"@, "routing_key"@, "status"@],
            PylonCounter::RequestStatsSources =>
                seq!["model"@, "routing_key"@, "status"@, "source"@],
            PylonCounter::StreamEvents => seq!["type"@],
            PylonCounter::StreamInvalidEvents => seq!["reason"@],
            PylonCounter::StreamReconnects => seq!["reason"@],
            PylonCounter::StaleCleanups => seq!["kind"@, "source"@],
            PylonCounter::DirtySnapshots => seq!["source"@, "reason"@],
            PylonCounter::SourceTransitions => seq!["from"@, "to"@, "reason"@],
            PylonCounter::DiscoveryPolls => seq!["provider"@, "outcome"@],
            PylonCounter::RetryableResponses => seq!["inference_server_id"@, "reason"@, "status"@],
            PylonCounter::NonretryableFailures => seq!["inference_server_id"@, "reason"@],
            PylonCounter::QueueAdmissionDecisions =>
                seq!["inference_server_id"@, "model_id"@, "result"@],
            PylonCounter::QualityChecks => seq!["model"@, "result"@],
            PylonCounter::QualityThresholdMatches => seq!["model"@, "reason"@],
        }
    }

    /// The name under which the family is exported.
    pub open spec fn exported_name(self) -> Seq<char> {
        match self {
            PylonCounter::TlsReloads => "pylon_tls_reloads_total"@,
            PylonCounter::Requests => "pylon_requests_total"@,
            PylonCounter::RequestInputTokens => "pylon_request_input_tokens_total"@,
            PylonCounter::RequestOutputTokens => "pylon_request_output_tokens_total"@,
            PylonCounter::RequestStatsSources => "pylon_request_stats_sources_total"@,
            PylonCounter::StreamEvents => "pylon_engine_stats_stream_events_total"@,
            PylonCounter::StreamInvalidEvents => "pylon_engine_stats_stream_invalid_events_total"@,
            PylonCounter::StreamReconnects => "pylon_engine_stats_stream_reconnects_total"@,
            PylonCounter::StaleCleanups => "pylon_engine_stats_stale_cleanups_total"@,
            PylonCounter::DirtySnapshots => "pylon_engine_stats_dirty_snapshots_total"@,
            PylonCounter::SourceTransitions => "pylon_engine_stats_source_transitions_total"@,
            PylonCounter::DiscoveryPolls => "pylon_model_discovery_polls_total"@,
            PylonCounter::RetryableResponses => "pylon_retryable_responses_total"@,
            PylonCounter::NonretryableFailures => "pylon_nonretryable_failures_total"@,
            PylonCounter::QueueAdmissionDecisions => "pylon_queue_admission_decisions_total"@,
            PylonCounter::QualityChecks => "pylon_quality_checks_total"@,
            PylonCounter::QualityThresholdMatches => "pylon_quality_threshold_matches_total"@,
        }
    }

    /// What the family is about.
    pub open spec fn description(self) -> Seq<char> {
        match self {
            PylonCounter::TlsReloads =>
                "TLS material reload attempts by material type and result"@,
            PylonCounter::Requests =>
                "Total number of terminal requests observed by pylon"@,
            PylonCounter::RequestInputTokens =>
                "Total input tokens observed on terminal requests"@,
            PylonCounter::RequestOutputTokens =>
                "Total output tokens observed on terminal requests"@,
            PylonCounter::RequestStatsSources =>
                "Total terminal requests by stats source observed by pylon"@,
            PylonCounter::StreamEvents =>
                "Total engine stats stream events ingested by type"@,
            PylonCounter::StreamInvalidEvents =>
                "Total invalid engine stats stream events by reason"@,
            PylonCounter::StreamReconnects =>
                "Total engine stats stream reconnect attempts by reason"@,
            PylonCounter::StaleCleanups =>
                "Total stale engine stats cleanups by kind and source"@,
            PylonCounter::DirtySnapshots =>
                "Total engine stats model snapshots marked dirty by source and reason"@,
            PylonCounter::SourceTransitions =>
                "Total engine stats source-selection transitions"@,
            PylonCounter::DiscoveryPolls =>
                "Total model-discovery polls by provider and outcome"@,
            PylonCounter::RetryableResponses =>
                "Total number of retryable responses emitted or relayed by pylon"@,
            PylonCounter::NonretryableFailures =>
                "Total number of upstream failures not marked retryable by pylon"@,
            PylonCounter::QueueAdmissionDecisions =>
                "Total number of local queue mismatch admission decisions"@,
            PylonCounter::QualityChecks =>
                "Total number of quality checks by result"@,
            PylonCounter::QualityThresholdMatches =>
                "Total number of requests that matched a quality threshold"@,
        }
    }

    /// How the family is exported.
    pub fn descriptor(self) -> (descriptor: Descriptor)
        ensures
            descriptor.name@ == self.exported_name(),
            descriptor.help@ == self.description(),
            label_texts(descriptor.labels@) == self.labels(),
            descriptor.labels@.len() == self.labels().len(),
    {
        let descriptor = match self {
            PylonCounter::TlsReloads => Descriptor {
                name: "pylon_tls_reloads_total",
                help: "TLS material reload attempts by material type and result",
                labels: vec!["material_type", "result"],
            },
            PylonCounter::Requests => Descriptor {
                name: "pylon_requests_total",
                help: "Total number of terminal requests observed by pylon",
                labels: vec!["model", "routing_key", "status"],
            },
            PylonCounter::RequestInputTokens => Descriptor {
                name: "pylon_request_input_tokens_total",
                help: "Total input tokens observed on terminal requests",
                labels: vec!["model", "routing_key", "status"],
            },
            PylonCounter::RequestOutputTokens => Descriptor {
                name: "pylon_request_output_tokens_total",
                help: "Total output tokens observed on terminal requests",
                labels: vec!["model", "routing_key", "status"],
            },
            PylonCounter::RequestStatsSources => Descriptor {
                name: "pylon_request_stats_sources_total",
                help: "Total terminal requests by stats source observed by pylon",
                labels: vec!["model", "routing_key", "status", "source"],
            },
            PylonCounter::StreamEvents => Descriptor {
                name: "pylon_engine_stats_stream_events_total",
                help: "Total engine stats stream events ingested by type",
                labels: vec!["type"],
            },
            PylonCounter::StreamInvalidEvents => Descriptor {
                name: "pylon_engine_stats_stream_invalid_events_total",
                help: "Total invalid engine stats stream events by reason",
                labels: vec!["reason"],
            },
            PylonCounter::StreamReconnects => Descriptor {
                name: "pylon_engine_stats_stream_reconnects_total",
                help: "Total engine stats stream reconnect attempts by reason",
                labels: vec!["reason"],
            },
            PylonCounter::StaleCleanups => Descriptor {
                name: "pylon_engine_stats_stale_cleanups_total",
                help: "Total stale engine stats cleanups by kind and source",
                labels: vec!["kind", "source"],
            },
            PylonCounter::DirtySnapshots => Descriptor {
                name: "pylon_engine_stats_dirty_snapshots_total",
                help: "Total engine stats model snapshots marked dirty by source and reason",
                labels: vec!["source", "reason"],
            },
            PylonCounter::SourceTransitions => Descriptor {
                name: "pylon_engine_stats_source_transitions_total",
                help: "Total engine stats source-selection transitions",
                labels: vec!["from", "to", "reason"],
            },
            PylonCounter::DiscoveryPolls => Descriptor {
                name: "pylon_model_discovery_polls_total",
                help: "Total model-discovery polls by provider and outcome",
                labels: vec!["provider", "outcome"],
            },
            PylonCounter::RetryableResponses => Descriptor {
                name: "pylon_retryable_responses_total",
                help: "Total number of retryable responses emitted or relayed by pylon",
                labels: vec!["inference_server_id", "reason", "status"],
            },
            PylonCounter::NonretryableFailures => Descriptor {
                name: "pylon_nonretryable_failures_total",
                help: "Total number of upstream failures not marked retryable by pylon",
                labels: vec!["inference_server_id", "reason"],
            },
            PylonCounter::QueueAdmissionDecisions => Descriptor {
                name: "pylon_queue_admission_decisions_total",
                help: "Total number of local queue mismatch admission decisions",
                labels: vec!["inference_server_id", "model_id", "result"],
            },
            PylonCounter::QualityChecks => Descriptor {
                name: "pylon_quality_checks_total",
                help: "Total number of quality checks by result",
                labels: vec!["model", "result"],
            },
            PylonCounter::QualityThresholdMatches => Descriptor {
                name: "pylon_quality_threshold_matches_total",
                help: "Total number of requests that matched a quality threshold",
                labels: vec!["model", "reason"],
            },
        };
        assert(label_texts(descriptor.labels@) =~= self.labels());
        descriptor
    }

    /// The place of the family among the others.
    pub open spec fn place(self) -> int {
        match self {
            PylonCounter::TlsReloads => 0,
            PylonCounter::Requests => 1,
            PylonCounter::RequestInputTokens => 2,
            PylonCounter::RequestOutputTokens => 3,
            PylonCounter::RequestStatsSources => 4,
            PylonCounter::StreamEvents => 5,
            PylonCounter::StreamInvalidEvents => 6,
            PylonCounter::StreamReconnects => 7,
            PylonCounter::StaleCleanups => 8,
            PylonCounter::DirtySnapshots => 9,
            PylonCounter::SourceTransitions => 10,
            PylonCounter::DiscoveryPolls => 11,
            PylonCounter::RetryableResponses => 12,
            PylonCounter::NonretryableFailures => 13,
            PylonCounter::QueueAdmissionDecisions => 14,
            PylonCounter::QualityChecks => 15,
            PylonCounter::QualityThresholdMatches => 16,
        }
    }

    /// The place of the family among the others.
    pub fn index(self) -> (index: usize)
        ensures
            index == self.place(),
            index < 17,
    {
        match self {
            PylonCounter::TlsReloads => 0,
            PylonCounter::Requests => 1,
            PylonCounter::RequestInputTokens => 2,
            PylonCounter::RequestOutputTokens => 3,
            PylonCounter::RequestStatsSources => 4,
            PylonCounter::StreamEvents => 5,
            PylonCounter::StreamInvalidEvents => 6,
            PylonCounter::StreamReconnects => 7,
            PylonCounter::StaleCleanups => 8,
            PylonCounter::DirtySnapshots => 9,
            PylonCounter::SourceTransitions => 10,
            PylonCounter::DiscoveryPolls => 11,
            PylonCounter::RetryableResponses => 12,
            PylonCounter::NonretryableFailures => 13,
            PylonCounter::QueueAdmissionDecisions => 14,
            PylonCounter::QualityChecks => 15,
            PylonCounter::QualityThresholdMatches => 16,
        }
    }

    /// The family at a place.
    pub open spec fn at(place: int) -> PylonCounter {
        if place == 0 {
            PylonCounter::TlsReloads
        } else if place == 1 {
            PylonCounter::Requests
        } else if place == 2 {
            PylonCounter::RequestInputTokens
        } else if place == 3 {
            PylonCounter::RequestOutputTokens
        } else if place == 4 {
            PylonCounter::RequestStatsSources
        } else if place == 5 {
            PylonCounter::StreamEvents
        } else if place == 6 {
            PylonCounter::StreamInvalidEvents
        } else if place == 7 {
            PylonCounter::StreamReconnects
        } else if place == 8 {
            PylonCounter::StaleCleanups
        } else if place == 9 {
            PylonCounter::DirtySnapshots
        } else if place == 10 {
            PylonCounter::SourceTransitions
        } else if place == 11 {
            PylonCounter::DiscoveryPolls
        } else if place == 12 {
            PylonCounter::RetryableResponses
        } else if place == 13 {
            PylonCounter::NonretryableFailures
        } else if place == 14 {
            PylonCounter::QueueAdmissionDecisions
        } else if place == 15 {
            PylonCounter::QualityChecks
        } else {
            PylonCounter::QualityThresholdMatches
        }
    }

    /// All families, in order.
    pub fn all() -> (families: Vec<PylonCounter>)
        ensures
            families@.len() == 17,
            forall|i: int| 0 <= i < 17 ==> #[trigger] families@[i] == PylonCounter::at(i),
    {
        let mut families: Vec<PylonCounter> = Vec::new();
        families.push(PylonCounter::TlsReloads);
        families.push(PylonCounter::Requests);
        families.push(PylonCounter::RequestInputTokens);
        families.push(PylonCounter::RequestOutputTokens);
        families.push(PylonCounter::RequestStatsSources);
        families.push(PylonCounter::StreamEvents);
        families.push(PylonCounter::StreamInvalidEvents);
        families.push(PylonCounter::StreamReconnects);
        families.push(PylonCounter::StaleCleanups);
        families.push(PylonCounter::DirtySnapshots);
        families.push(PylonCounter::SourceTransitions);
        families.push(PylonCounter::DiscoveryPolls);
        families.push(PylonCounter::RetryableResponses);
        families.push(PylonCounter::NonretryableFailures);
        families.push(PylonCounter::QueueAdmissionDecisions);
        families.push(PylonCounter::QualityChecks);
        families.push(PylonCounter::QualityThresholdMatches);
        families
    }
}

/// Places tell families apart.
pub proof fn counter_places_are_distinct(family: PylonCounter)
    ensures
        0 <= family.place() < 17,
        PylonCounter::at(family.place()) == family,
{
}

/// A family of gauges.
#[derive(Clone, Copy, Debug, PartialEq, Eq, Structural)]
pub enum PylonGauge {
    TargetInfo,
    RegistrationStreamConnected,
    ReverseTunnelConnected,
    TlsCertificateExpiry,
    RequestsInflight,
    RequestsState,
    RequestsStateInputTokens,
    StreamConnected,
    LiveRequests,
    ModelStates,
    DiscoveredModels,
    StatsCapability,
    StatsSource,
    AdvertisedStatus,
}

impl PylonGauge {
    /// The labels of the family.
    pub open spec fn labels(self) -> Seq<Seq<char>> {
        match self {
            PylonGauge::TargetInfo => seq!["service_version"@, "service_name"@, "commit"@],
            PylonGauge::RegistrationStreamConnected => seq!["router"@],
            PylonGauge::ReverseTunnelConnected => seq!["router"@],
            PylonGauge::TlsCertificateExpiry => seq!["material_type"@],
            PylonGauge::RequestsInflight => seq!["model"@],
            PylonGauge::RequestsState => seq!["model"@, "state"@],
            PylonGauge::RequestsStateInputTokens => seq!["model"@, "state"@],
            PylonGauge::StreamConnected => seq!["mode"@],
            PylonGauge::LiveRequests => seq!["source"@],
            PylonGauge::ModelStates => seq!["source"@],
            PylonGauge::DiscoveredModels => seq!["provider"@],
            PylonGauge::StatsCapability => seq!["model"@, "capability"@],
            PylonGauge::StatsSource => seq!["model"@, "source"@],
            PylonGauge::AdvertisedStatus => seq!["router"@, "model"@, "status"@],
        }
    }

    /// The name under which the family is exported.
    pub open spec fn exported_name(self) -> Seq<char> {
        match self {
            PylonGauge::TargetInfo => "target_info"@,
            PylonGauge::RegistrationStreamConnected => "pylon_registration_stream_connected"@,
            PylonGauge::ReverseTunnelConnected => "pylon_reverse_tunnel_connected"@,
            PylonGauge::TlsCertificateExpiry => "pylon_tls_certificate_expiry_seconds"@,
            PylonGauge::RequestsInflight => "pylon_requests_inflight"@,
            PylonGauge::RequestsState => "pylon_requests_state"@,
            PylonGauge::RequestsStateInputTokens => "pylon_requests_state_input_tokens"@,
            PylonGauge::StreamConnected => "pylon_engine_stats_stream_connected"@,
            PylonGauge::LiveRequests => "pylon_engine_stats_live_requests"@,
            PylonGauge::ModelStates => "pylon_engine_stats_model_states"@,
            PylonGauge::DiscoveredModels => "pylon_model_discovery_models"@,
            PylonGauge::StatsCapability => "pylon_model_stats_capability"@,
            PylonGauge::StatsSource => "pylon_model_stats_source"@,
            PylonGauge::AdvertisedStatus => "pylon_model_advertised_status"@,
        }
    }

    /// What the family is about.
    pub open spec fn description(self) -> Seq<char> {
        match self {
            PylonGauge::TargetInfo =>
                "Target metadata"@,
            PylonGauge::RegistrationStreamConnected =>
                "Binary gauge: 1 when a stargate registration stream is connected"@,
            PylonGauge::ReverseTunnelConnected =>
                "Binary gauge: 1 when a reverse QUIC tunnel is connected to a stargate router"@,
            PylonGauge::TlsCertificateExpiry =>
                "Unix timestamp when the active TLS certificate expires"@,
            PylonGauge::RequestsInflight =>
                "Current number of observed requests in flight"@,
            PylonGauge::RequestsState =>
                "Current number of observed requests by client-side lifecycle state"@,
            PylonGauge::RequestsStateInputTokens =>
                "Current input tokens for observed requests by client-side lifecycle state"@,
            PylonGauge::StreamConnected =>
                "Binary gauge: 1 when the engine stats stream is connected"@,
            PylonGauge::LiveRequests =>
                "Current live request stats entries by source"@,
            PylonGauge::ModelStates =>
                "Current engine stats aggregate model states by source"@,
            PylonGauge::DiscoveredModels =>
                "Model count from the last valid discovery response"@,
            PylonGauge::StatsCapability =>
                "Binary gauge for observed stats capability labels by model"@,
            PylonGauge::StatsSource =>
                "Binary gauge for observed stats source labels by model"@,
            PylonGauge::AdvertisedStatus =>
                "Current model status advertised to each stargate router; the active status label is 1 and other status labels are 0"@,
        }
    }

    /// How the family is exported.
    pub fn descriptor(self) -> (descriptor: Descriptor)
        ensures
            descriptor.name@ == self.exported_name(),
            descriptor.help@ == self.description(),
            label_texts(descriptor.labels@) == self.labels(),
            descriptor.labels@.len() == self.labels().len(),
    {
        let descriptor = match self {
            PylonGauge::TargetInfo => Descriptor {
                name: "target_info",
                help: "Target metadata",
                labels: vec!["service_version", "service_name", "commit"],
            },
            PylonGauge::RegistrationStreamConnected => Descriptor {
                name: "pylon_registration_stream_connected",
                help: "Binary gauge: 1 when a stargate registration stream is connected",
                labels: vec!["router"],
            },
            PylonGauge::ReverseTunnelConnected => Descriptor {
                name: "pylon_reverse_tunnel_connected",
                help: "Binary gauge: 1 when a reverse QUIC tunnel is connected to a stargate router",
                labels: vec!["router"],
            },
            PylonGauge::TlsCertificateExpiry => Descriptor {
                name: "pylon_tls_certificate_expiry_seconds",
                help: "Unix timestamp when the active TLS certificate expires",
                labels: vec!["material_type"],
            },
            PylonGauge::RequestsInflight => Descriptor {
                name: "pylon_requests_inflight",
                help: "Current number of observed requests in flight",
                labels: vec!["model"],
            },
            PylonGauge::RequestsState => Descriptor {
                name: "pylon_requests_state",
                help: "Current number of observed requests by client-side lifecycle state",
                labels: vec!["model", "state"],
            },
            PylonGauge::RequestsStateInputTokens => Descriptor {
                name: "pylon_requests_state_input_tokens",
                help: "Current input tokens for observed requests by client-side lifecycle state",
                labels: vec!["model", "state"],
            },
            PylonGauge::StreamConnected => Descriptor {
                name: "pylon_engine_stats_stream_connected",
                help: "Binary gauge: 1 when the engine stats stream is connected",
                labels: vec!["mode"],
            },
            PylonGauge::LiveRequests => Descriptor {
                name: "pylon_engine_stats_live_requests",
                help: "Current live request stats entries by source",
                labels: vec!["source"],
            },
            PylonGauge::ModelStates => Descriptor {
                name: "pylon_engine_stats_model_states",
                help: "Current engine stats aggregate model states by source",
                labels: vec!["source"],
            },
            PylonGauge::DiscoveredModels => Descriptor {
                name: "pylon_model_discovery_models",
                help: "Model count from the last valid discovery response",
                labels: vec!["provider"],
            },
            PylonGauge::StatsCapability => Descriptor {
                name: "pylon_model_stats_capability",
                help: "Binary gauge for observed stats capability labels by model",
                labels: vec!["model", "capability"],
            },
            PylonGauge::StatsSource => Descriptor {
                name: "pylon_model_stats_source",
                help: "Binary gauge for observed stats source labels by model",
                labels: vec!["model", "source"],
            },
            PylonGauge::AdvertisedStatus => Descriptor {
                name: "pylon_model_advertised_status",
                help: "Current model status advertised to each stargate router; the active status label is 1 and other status labels are 0",
                labels: vec!["router", "model", "status"],
            },
        };
        assert(label_texts(descriptor.labels@) =~= self.labels());
        descriptor
    }

    /// The place of the family among the others.
    pub open spec fn place(self) -> int {
        match self {
            PylonGauge::TargetInfo => 0,
            PylonGauge::RegistrationStreamConnected => 1,
            PylonGauge::ReverseTunnelConnected => 2,
            PylonGauge::TlsCertificateExpiry => 3,
            PylonGauge::RequestsInflight => 4,
            PylonGauge::RequestsState => 5,
            PylonGauge::RequestsStateInputTokens => 6,
            PylonGauge::StreamConnected => 7,
            PylonGauge::LiveRequests => 8,
            PylonGauge::ModelStates => 9,
            PylonGauge::DiscoveredModels => 10,
            PylonGauge::StatsCapability => 11,
            PylonGauge::StatsSource => 12,
            PylonGauge::AdvertisedStatus => 13,
        }
    }

    /// The place of the family among the others.
    pub fn index(self) -> (index: usize)
        ensures
            index == self.place(),
            index < 14,
    {
        match self {
            PylonGauge::TargetInfo => 0,
            PylonGauge::RegistrationStreamConnected => 1,
            PylonGauge::ReverseTunnelConnected => 2,
            PylonGauge::TlsCertificateExpiry => 3,
            PylonGauge::RequestsInflight => 4,
            PylonGauge::RequestsState => 5,
            PylonGauge::RequestsStateInputTokens => 6,
            PylonGauge::StreamConnected => 7,
            PylonGauge::LiveRequests => 8,
            PylonGauge::ModelStates => 9,
            PylonGauge::DiscoveredModels => 10,
            PylonGauge::StatsCapability => 11,
            PylonGauge::StatsSource => 12,
            PylonGauge::AdvertisedStatus => 13,
        }
    }

    /// The family at a place.
    pub open spec fn at(place: int) -> PylonGauge {
        if place == 0 {
            PylonGauge::TargetInfo
        } else if place == 1 {
            PylonGauge::RegistrationStreamConnected
        } else if place == 2 {
            PylonGauge::ReverseTunnelConnected
        } else if place == 3 {
            PylonGauge::TlsCertificateExpiry
        } else if place == 4 {
            PylonGauge::RequestsInflight
        } else if place == 5 {
            PylonGauge::RequestsState
        } else if place == 6 {
            PylonGauge::RequestsStateInputTokens
        } else if place == 7 {
            PylonGauge::StreamConnected
        } else if place == 8 {
            PylonGauge::LiveRequests
        } else if place == 9 {
            PylonGauge::ModelStates
        } else if place == 10 {
            PylonGauge::DiscoveredModels
        } else if place == 11 {
            PylonGauge::StatsCapability
        } else if place == 12 {
            PylonGauge::StatsSource
        } else {
            PylonGauge::AdvertisedStatus
        }
    }

    /// All families, in order.
    pub fn all() -> (families: Vec<PylonGauge>)
        ensures
            families@.len() == 14,
            forall|i: int| 0 <= i < 14 ==> #[trigger] families@[i] == PylonGauge::at(i),
    {
        let mut families: Vec<PylonGauge> = Vec::new();
        families.push(PylonGauge::TargetInfo);
        families.push(PylonGauge::RegistrationStreamConnected);
        families.push(PylonGauge::ReverseTunnelConnected);
        families.push(PylonGauge::TlsCertificateExpiry);
        families.push(PylonGauge::RequestsInflight);
        families.push(PylonGauge::RequestsState);
        families.push(PylonGauge::RequestsStateInputTokens);
        families.push(PylonGauge::StreamConnected);
        families.push(PylonGauge::LiveRequests);
        families.push(PylonGauge::ModelStates);
        families.push(PylonGauge::DiscoveredModels);
        families.push(PylonGauge::StatsCapability);
        families.push(PylonGauge::StatsSource);
        families.push(PylonGauge::AdvertisedStatus);
        families
    }
}

/// Places tell families apart.
pub proof fn gauge_places_are_distinct(family: PylonGauge)
    ensures
        0 <= family.place() < 14,
        PylonGauge::at(family.place()) == family,
{
}

/// A family of gauges that hold fractions.
#[derive(Clone, Copy, Debug, PartialEq, Eq, Structural)]
pub enum PylonFloatGauge {
    OutputTps,
    EmbeddingItemTps,
    LastMeanInputTps,
    MaxOutputTps,
    MaxEmbeddingItemTps,
    QueueSize,
    QueuedInputTokens,
    KvCacheCapacityTokens,
    KvCacheUsedTokens,
    KvCacheFreeTokens,
}

impl PylonFloatGauge {
    /// The labels of the family.
    pub open spec fn labels(self) -> Seq<Seq<char>> {
        match self {
            PylonFloatGauge::OutputTps => seq!["model"@],
            PylonFloatGauge::EmbeddingItemTps => seq!["model"@],
            PylonFloatGauge::LastMeanInputTps => seq!["model"@],
            PylonFloatGauge::MaxOutputTps => seq!["model"@],
            PylonFloatGauge::MaxEmbeddingItemTps => seq!["model"@],
            PylonFloatGauge::QueueSize => seq!["model"@],
            PylonFloatGauge::QueuedInputTokens => seq!["model"@],
            PylonFloatGauge::KvCacheCapacityTokens => seq!["model"@],
            PylonFloatGauge::KvCacheUsedTokens => seq!["model"@],
            PylonFloatGauge::KvCacheFreeTokens => seq!["model"@],
        }
    }

    /// The name under which the family is exported.
    pub open spec fn exported_name(self) -> Seq<char> {
        match self {
            PylonFloatGauge::OutputTps => "pylon_model_output_tps"@,
            PylonFloatGauge::EmbeddingItemTps => "pylon_model_embedding_item_tps"@,
            PylonFloatGauge::LastMeanInputTps => "pylon_model_last_mean_input_tps"@,
            PylonFloatGauge::MaxOutputTps => "pylon_model_max_output_tps"@,
            PylonFloatGauge::MaxEmbeddingItemTps => "pylon_model_max_embedding_item_tps"@,
            PylonFloatGauge::QueueSize => "pylon_model_queue_size"@,
            PylonFloatGauge::QueuedInputTokens => "pylon_model_queued_input_tokens"@,
            PylonFloatGauge::KvCacheCapacityTokens => "pylon_model_kv_cache_capacity_tokens"@,
            PylonFloatGauge::KvCacheUsedTokens => "pylon_model_kv_cache_used_tokens"@,
            PylonFloatGauge::KvCacheFreeTokens => "pylon_model_kv_cache_free_tokens"@,
        }
    }

    /// What the family is about.
    pub open spec fn description(self) -> Seq<char> {
        match self {
            PylonFloatGauge::OutputTps =>
                "Current output TPS by model"@,
            PylonFloatGauge::EmbeddingItemTps =>
                "Current embeddings item throughput by model"@,
            PylonFloatGauge::LastMeanInputTps =>
                "Last valid mean input TPS by model"@,
            PylonFloatGauge::MaxOutputTps =>
                "Observed max output TPS by model"@,
            PylonFloatGauge::MaxEmbeddingItemTps =>
                "Observed max embeddings item throughput by model"@,
            PylonFloatGauge::QueueSize =>
                "Current queued request count by model"@,
            PylonFloatGauge::QueuedInputTokens =>
                "Current queued input tokens by model"@,
            PylonFloatGauge::KvCacheCapacityTokens =>
                "Current KV cache capacity tokens by model"@,
            PylonFloatGauge::KvCacheUsedTokens =>
                "Current KV cache used tokens by model"@,
            PylonFloatGauge::KvCacheFreeTokens =>
                "Current KV cache free tokens by model"@,
        }
    }

    /// How the family is exported.
    pub fn descriptor(self) -> (descriptor: Descriptor)
        ensures
            descriptor.name@ == self.exported_name(),
            descriptor.help@ == self.description(),
            label_texts(descriptor.labels@) == self.labels(),
            descriptor.labels@.len() == self.labels().len(),
    {
        let descriptor = match self {
            PylonFloatGauge::OutputTps => Descriptor {
                name: "pylon_model_output_tps",
                help: "Current output TPS by model",
                labels: vec!["model"],
            },
            PylonFloatGauge::EmbeddingItemTps => Descriptor {
                name: "pylon_model_embedding_item_tps",
                help: "Current embeddings item throughput by model",
                labels: vec!["model"],
            },
            PylonFloatGauge::LastMeanInputTps => Descriptor {
                name: "pylon_model_last_mean_input_tps",
                help: "Last valid mean input TPS by model",
                labels: vec!["model"],
            },
            PylonFloatGauge::MaxOutputTps => Descriptor {
                name: "pylon_model_max_output_tps",
                help: "Observed max output TPS by model",
                labels: vec!["model"],
            },
            PylonFloatGauge::MaxEmbeddingItemTps => Descriptor {
                name: "pylon_model_max_embedding_item_tps",
                help: "Observed max embeddings item throughput by model",
                labels: vec!["model"],
            },
            PylonFloatGauge::QueueSize => Descriptor {
                name: "pylon_model_queue_size",
                help: "Current queued request count by model",
                labels: vec!["model"],
            },
            PylonFloatGauge::QueuedInputTokens => Descriptor {
                name: "pylon_model_queued_input_tokens",
                help: "Current queued input tokens by model",
                labels: vec!["model"],
            },
            PylonFloatGauge::KvCacheCapacityTokens => Descriptor {
                name: "pylon_model_kv_cache_capacity_tokens",
                help: "Current KV cache capacity tokens by model",
                labels: vec!["model"],
            },
            PylonFloatGauge::KvCacheUsedTokens => Descriptor {
                name: "pylon_model_kv_cache_used_tokens",
                help: "Current KV cache used tokens by model",
                labels: vec!["model"],
            },
            PylonFloatGauge::KvCacheFreeTokens => Descriptor {
                name: "pylon_model_kv_cache_free_tokens",
                help: "Current KV cache free tokens by model",
                labels: vec!["model"],
            },
        };
        assert(label_texts(descriptor.labels@) =~= self.labels());
        descriptor
    }
}

/// A family of histograms.
#[derive(Clone, Copy, Debug, PartialEq, Eq, Structural)]
pub enum PylonHistogram {
    TimeToResponseHeaders,
    TimeToFirstOutput,
    TimeToFirstToken,
    RequestDuration,
    InputTokens,
    OutputTokens,
    CalibrationDuration,
    QueueAdmissionExpected,
    QueueAdmissionActual,
}

impl PylonHistogram {
    /// The labels of the family.
    pub open spec fn labels(self) -> Seq<Seq<char>> {
        match self {
            PylonHistogram::TimeToResponseHeaders => seq!["model"@, "routing_key"@],
            PylonHistogram::TimeToFirstOutput => seq!["model"@, "routing_key"@],
            PylonHistogram::TimeToFirstToken => seq!["model"@, "routing_key"@],
            PylonHistogram::RequestDuration => seq!["model"@, "routing_key"@, "status"@],
            PylonHistogram::InputTokens => seq!["model"@, "routing_key"@, "status"@],
            PylonHistogram::OutputTokens => seq!["model"@, "routing_key"@, "status"@],
            PylonHistogram::CalibrationDuration => seq!["model"@, "outcome"@],
            PylonHistogram::QueueAdmissionExpected => seq!["inference_server_id"@, "model_id"@],
            PylonHistogram::QueueAdmissionActual => seq!["inference_server_id"@, "model_id"@],
        }
    }

    /// The name under which the family is exported.
    pub open spec fn exported_name(self) -> Seq<char> {
        match self {
            PylonHistogram::TimeToResponseHeaders =>
                "pylon_request_time_to_response_headers_seconds"@,
            PylonHistogram::TimeToFirstOutput => "pylon_request_time_to_first_output_seconds"@,
            PylonHistogram::TimeToFirstToken => "pylon_request_time_to_first_token_seconds"@,
            PylonHistogram::RequestDuration => "pylon_request_duration_seconds"@,
            PylonHistogram::InputTokens => "pylon_request_input_tokens"@,
            PylonHistogram::OutputTokens => "pylon_request_output_tokens"@,
            PylonHistogram::CalibrationDuration => "pylon_model_calibration_duration_ms"@,
            PylonHistogram::QueueAdmissionExpected => "pylon_queue_admission_expected_ms"@,
            PylonHistogram::QueueAdmissionActual => "pylon_queue_admission_actual_ms"@,
        }
    }

    /// What the family is about.
    pub open spec fn description(self) -> Seq<char> {
        match self {
            PylonHistogram::TimeToResponseHeaders =>
                "Time from request start to upstream response headers"@,
            PylonHistogram::TimeToFirstOutput =>
                "Time from request start to first observed output message"@,
            PylonHistogram::TimeToFirstToken =>
                "Time from request start to first observed output token"@,
            PylonHistogram::RequestDuration =>
                "Total observed duration for terminal requests"@,
            PylonHistogram::InputTokens =>
                "Input tokens per terminal request"@,
            PylonHistogram::OutputTokens =>
                "Output tokens per terminal request"@,
            PylonHistogram::CalibrationDuration =>
                "Per-generation calibration traffic-ramp duration in milliseconds by model and outcome"@,
            PylonHistogram::QueueAdmissionExpected =>
                "Expected queue milliseconds received from Stargate for local queue admission"@,
            PylonHistogram::QueueAdmissionActual =>
                "Actual local queue milliseconds used for queue mismatch admission"@,
        }
    }

    /// How the family is exported.
    pub fn descriptor(self) -> (descriptor: Descriptor)
        ensures
            descriptor.name@ == self.exported_name(),
            descriptor.help@ == self.description(),
            label_texts(descriptor.labels@) == self.labels(),
            descriptor.labels@.len() == self.labels().len(),
    {
        let descriptor = match self {
            PylonHistogram::TimeToResponseHeaders => Descriptor {
                name: "pylon_request_time_to_response_headers_seconds",
                help: "Time from request start to upstream response headers",
                labels: vec!["model", "routing_key"],
            },
            PylonHistogram::TimeToFirstOutput => Descriptor {
                name: "pylon_request_time_to_first_output_seconds",
                help: "Time from request start to first observed output message",
                labels: vec!["model", "routing_key"],
            },
            PylonHistogram::TimeToFirstToken => Descriptor {
                name: "pylon_request_time_to_first_token_seconds",
                help: "Time from request start to first observed output token",
                labels: vec!["model", "routing_key"],
            },
            PylonHistogram::RequestDuration => Descriptor {
                name: "pylon_request_duration_seconds",
                help: "Total observed duration for terminal requests",
                labels: vec!["model", "routing_key", "status"],
            },
            PylonHistogram::InputTokens => Descriptor {
                name: "pylon_request_input_tokens",
                help: "Input tokens per terminal request",
                labels: vec!["model", "routing_key", "status"],
            },
            PylonHistogram::OutputTokens => Descriptor {
                name: "pylon_request_output_tokens",
                help: "Output tokens per terminal request",
                labels: vec!["model", "routing_key", "status"],
            },
            PylonHistogram::CalibrationDuration => Descriptor {
                name: "pylon_model_calibration_duration_ms",
                help: "Per-generation calibration traffic-ramp duration in milliseconds by model and outcome",
                labels: vec!["model", "outcome"],
            },
            PylonHistogram::QueueAdmissionExpected => Descriptor {
                name: "pylon_queue_admission_expected_ms",
                help: "Expected queue milliseconds received from Stargate for local queue admission",
                labels: vec!["inference_server_id", "model_id"],
            },
            PylonHistogram::QueueAdmissionActual => Descriptor {
                name: "pylon_queue_admission_actual_ms",
                help: "Actual local queue milliseconds used for queue mismatch admission",
                labels: vec!["inference_server_id", "model_id"],
            },
        };
        assert(label_texts(descriptor.labels@) =~= self.labels());
        descriptor
    }
}

} // verus!
