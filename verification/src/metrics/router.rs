//! The metrics of the Kubernetes router.

use super::family::{
    add_to_counter, all_registrable, can_export, counted_up, counter_contents,
    counter_description, counter_home, counter_labels, counter_samples, export_text,
    gauge_contents, gauge_description, gauge_home, gauge_labels, gauge_samples, gauge_set,
    is_export, label_texts, new_counter_family, new_gauge_family, new_registry, registry_families,
    registry_mark, set_gauge, CounterFamily, GaugeFamily, MetricsError,
};
use crate::tls::identity::unix_seconds_now;
use crate::tls::rotation::{expiry_ready, identity_is_ready, NO_EXPIRY};
use vstd::prelude::*;

verus! {

/// What the router counts: connections and sessions by outcome, reloads by material and result,
/// the expiry that is shown, and the expiry that readiness goes by; and the registry that they are
/// exported through, by its mark.
pub struct RouterCounts {
    pub quic_connections: Map<u64, (Seq<Seq<char>>, u64)>,
    pub webtransport_sessions: Map<u64, (Seq<Seq<char>>, u64)>,
    pub tls_reloads: Map<u64, (Seq<Seq<char>>, u64)>,
    pub tls_expiry: Map<u64, (Seq<Seq<char>>, i64)>,
    pub identity_not_after: i64,
    pub registry: int,
}

/// The metrics of the Kubernetes router.
pub struct RouterMetrics {
    registry: prometheus::Registry,
    quic_connections_total: CounterFamily,
    webtransport_sessions_total: CounterFamily,
    tls_reloads_total: CounterFamily,
    tls_certificate_expiry_seconds: GaugeFamily,
    tls_identity_not_after: i64,
}

impl View for RouterMetrics {
    type V = RouterCounts;

    closed spec fn view(&self) -> RouterCounts {
        RouterCounts {
            quic_connections: counter_samples(self.quic_connections_total),
            webtransport_sessions: counter_samples(self.webtransport_sessions_total),
            tls_reloads: counter_samples(self.tls_reloads_total),
            tls_expiry: gauge_samples(self.tls_certificate_expiry_seconds),
            identity_not_after: self.tls_identity_not_after,
            registry: registry_mark(self.registry),
        }
    }
}

/// The reload counters with every combination of material and result at 0.
pub open spec fn reloads_at_zero(samples: Map<u64, (Seq<Seq<char>>, u64)>) -> Map<
    u64,
    (Seq<Seq<char>>, u64),
> {
    let a = counted_up(samples, seq!["server_identity"@, "success"@], 0);
    let b = counted_up(a, seq!["server_identity"@, "rejected"@], 0);
    let c = counted_up(b, seq!["client_trust"@, "success"@], 0);
    counted_up(c, seq!["client_trust"@, "rejected"@], 0)
}

/// Adds one to the counter with the given values of two labels.
pub(crate) fn add_for_pair(family: &mut CounterFamily, first: &str, second: &str, by: u64)
    requires
        counter_labels(*old(family)) == 2,
    ensures
        counter_home(*final(family)) == counter_home(*old(family)),
        counter_description(*final(family)) == counter_description(*old(family)),
        counter_samples(*final(family)) == counted_up(
            counter_samples(*old(family)),
            seq![first@, second@],
            by,
        ),
{
    let labels: Vec<&str> = vec![first, second];
    assert(label_texts(labels@) =~= seq![first@, second@]);
    add_to_counter(family, labels.as_slice(), by);
}

/// Puts every combination of material and result at 0.
pub(crate) fn initialize_reloads(family: &mut CounterFamily)
    requires
        counter_labels(*old(family)) == 2,
    ensures
        counter_home(*final(family)) == counter_home(*old(family)),
        counter_description(*final(family)) == counter_description(*old(family)),
        counter_samples(*final(family)) == reloads_at_zero(counter_samples(*old(family))),
{
    add_for_pair(family, "server_identity", "success", 0);
    add_for_pair(family, "server_identity", "rejected", 0);
    add_for_pair(family, "client_trust", "success", 0);
    add_for_pair(family, "client_trust", "rejected", 0);
}

/// Sets the gauge with the given value of one label.
pub(crate) fn set_for_one(family: &mut GaugeFamily, label: &str, value: i64)
    requires
        gauge_labels(*old(family)) == 1,
    ensures
        gauge_home(*final(family)) == gauge_home(*old(family)),
        gauge_description(*final(family)) == gauge_description(*old(family)),
        gauge_samples(*final(family)) == gauge_set(
            gauge_samples(*old(family)),
            seq![label@],
            value,
        ),
{
    let labels: Vec<&str> = vec![label];
    assert(label_texts(labels@) =~= seq![label@]);
    set_gauge(family, labels.as_slice(), value);
}

fn add_for_one(family: &mut CounterFamily, label: &str)
    requires
        counter_labels(*old(family)) == 1,
    ensures
        counter_home(*final(family)) == counter_home(*old(family)),
        counter_description(*final(family)) == counter_description(*old(family)),
        counter_samples(*final(family)) == counted_up(
            counter_samples(*old(family)),
            seq![label@],
            1,
        ),
{
    let labels: Vec<&str> = vec![label];
    assert(label_texts(labels@) =~= seq![label@]);
    add_to_counter(family, labels.as_slice(), 1);
}

/// The families of the router, by name, description and labels.
pub open spec fn router_families() -> Seq<(Seq<char>, Seq<char>, Seq<Seq<char>>)> {
    seq![
        (
            "stargate_k8s_router_quic_connections_total"@,
            "QUIC reverse-tunnel router connections by outcome."@,
            seq!["outcome"@],
        ),
        (
            "stargate_k8s_router_webtransport_sessions_total"@,
            "WebTransport reverse-tunnel router sessions by outcome."@,
            seq!["outcome"@],
        ),
        (
            "stargate_k8s_router_tls_reloads_total"@,
            "TLS material reload attempts by material type and result."@,
            seq!["material_type"@, "result"@],
        ),
        (
            "stargate_k8s_router_tls_certificate_expiry_seconds"@,
            "Unix timestamp when the active TLS certificate expires."@,
            seq!["material_type"@],
        ),
    ]
}

/// What is exported of the families of counters: descriptions and samples.
pub open spec fn counter_exports(counts: RouterCounts) -> Seq<
    ((Seq<char>, Seq<char>, Seq<Seq<char>>), Map<u64, (Seq<Seq<char>>, u64)>),
> {
    seq![
        (router_families()[0], counts.quic_connections),
        (router_families()[1], counts.webtransport_sessions),
        (router_families()[2], counts.tls_reloads),
    ]
}

/// What is exported of the family of gauges: description and samples.
pub open spec fn gauge_exports(counts: RouterCounts) -> Seq<
    ((Seq<char>, Seq<char>, Seq<Seq<char>>), Map<u64, (Seq<Seq<char>>, i64)>),
> {
    seq![(router_families()[3], counts.tls_expiry)]
}

/// Whether a text shows all that the router counts, and nothing else.
pub open spec fn shows_counts(text: Seq<char>, counts: RouterCounts) -> bool {
    is_export(text, counter_exports(counts), gauge_exports(counts))
}

impl RouterMetrics {
    /// The families, and no others, are exported under their names, with the labels that they are
    /// used with.
    pub closed spec fn wf(&self) -> bool {
        &&& registry_families(self.registry) == Some(router_families())
        &&& counter_home(self.quic_connections_total) == registry_mark(self.registry)
        &&& counter_home(self.webtransport_sessions_total) == registry_mark(self.registry)
        &&& counter_home(self.tls_reloads_total) == registry_mark(self.registry)
        &&& gauge_home(self.tls_certificate_expiry_seconds) == registry_mark(self.registry)
        &&& counter_description(self.quic_connections_total) == router_families()[0]
        &&& counter_description(self.webtransport_sessions_total) == router_families()[1]
        &&& counter_description(self.tls_reloads_total) == router_families()[2]
        &&& gauge_description(self.tls_certificate_expiry_seconds) == router_families()[3]
    }

    /// Metrics of which nothing is counted yet: the reload counters stand at 0, the expiry that is
    /// shown is 0, and there is none that readiness goes by.
    pub fn new() -> (metrics: Result<Self, MetricsError>)
        ensures
            metrics is Ok <==> all_registrable(router_families()),
            metrics matches Ok(made) ==> made.wf() && made@ == (RouterCounts {
                quic_connections: Map::empty(),
                webtransport_sessions: Map::empty(),
                tls_reloads: reloads_at_zero(Map::empty()),
                tls_expiry: gauge_set(Map::empty(), seq!["server_identity"@], 0),
                identity_not_after: NO_EXPIRY,
                registry: made@.registry,
            }),
    {
        let mut registry: prometheus::Registry = new_registry();
        let outcome: Vec<&str> = vec!["outcome"];
        let material_and_result: Vec<&str> = vec!["material_type", "result"];
        let material: Vec<&str> = vec!["material_type"];
        assert(label_texts(outcome@) =~= seq!["outcome"@]);
        assert(label_texts(material_and_result@) =~= seq!["material_type"@, "result"@]);
        assert(label_texts(material@) =~= seq!["material_type"@]);
        let ghost families = router_families();
        assert(families.take(0) =~= Seq::empty());
        assert(families.take(1) =~= families.take(0).push(families[0]));
        assert(families.take(2) =~= families.take(1).push(families[1]));
        assert(families.take(3) =~= families.take(2).push(families[2]));
        let quic_connections_total: CounterFamily = match new_counter_family(
            &mut registry,
            "stargate_k8s_router_quic_connections_total",
            "QUIC reverse-tunnel router connections by outcome.",
            outcome.as_slice(),
        ) {
            Ok(family) => family,
            Err(error) => return Err(error),
        };
        let webtransport_sessions_total: CounterFamily = match new_counter_family(
            &mut registry,
            "stargate_k8s_router_webtransport_sessions_total",
            "WebTransport reverse-tunnel router sessions by outcome.",
            outcome.as_slice(),
        ) {
            Ok(family) => family,
            Err(error) => return Err(error),
        };
        let mut tls_reloads_total: CounterFamily = match new_counter_family(
            &mut registry,
            "stargate_k8s_router_tls_reloads_total",
            "TLS material reload attempts by material type and result.",
            material_and_result.as_slice(),
        ) {
            Ok(family) => family,
            Err(error) => return Err(error),
        };
        initialize_reloads(&mut tls_reloads_total);
        let mut tls_certificate_expiry_seconds: GaugeFamily = match new_gauge_family(
            &mut registry,
            "stargate_k8s_router_tls_certificate_expiry_seconds",
            "Unix timestamp when the active TLS certificate expires.",
            material.as_slice(),
        ) {
            Ok(family) => family,
            Err(error) => return Err(error),
        };
        set_for_one(&mut tls_certificate_expiry_seconds, "server_identity", 0);
        assert(families.take(3).push(families[3]) =~= families);
        Ok(
            RouterMetrics {
                registry,
                quic_connections_total,
                webtransport_sessions_total,
                tls_reloads_total,
                tls_certificate_expiry_seconds,
                tls_identity_not_after: NO_EXPIRY,
            },
        )
    }

    /// Counts a QUIC connection by its outcome.
    pub fn observe_quic_connection(&mut self, outcome: &str)
        requires
            old(self).wf(),
        ensures
            final(self).wf(),
            final(self)@ == (RouterCounts {
                quic_connections: counted_up(old(self)@.quic_connections, seq![outcome@], 1),
                ..old(self)@
            }),
    {
        add_for_one(&mut self.quic_connections_total, outcome);
    }

    /// Counts a WebTransport session by its outcome.
    pub fn observe_webtransport_session(&mut self, outcome: &str)
        requires
            old(self).wf(),
        ensures
            final(self).wf(),
            final(self)@ == (RouterCounts {
                webtransport_sessions: counted_up(
                    old(self)@.webtransport_sessions,
                    seq![outcome@],
                    1,
                ),
                ..old(self)@
            }),
    {
        add_for_one(&mut self.webtransport_sessions_total, outcome);
    }

    /// Counts an attempt to reload TLS material.
    pub fn observe_tls_reload(&mut self, material_type: &str, result: &str)
        requires
            old(self).wf(),
        ensures
            final(self).wf(),
            final(self)@ == (RouterCounts {
                tls_reloads: counted_up(
                    old(self)@.tls_reloads,
                    seq![material_type@, result@],
                    1,
                ),
                ..old(self)@
            }),
    {
        add_for_pair(&mut self.tls_reloads_total, material_type, result, 1);
    }

    /// Shows when the identity in use expires, and goes by it.
    pub fn set_tls_certificate_expiry(&mut self, unix_seconds: i64)
        requires
            old(self).wf(),
        ensures
            final(self).wf(),
            final(self)@ == (RouterCounts {
                tls_expiry: gauge_set(old(self)@.tls_expiry, seq!["server_identity"@], unix_seconds),
                identity_not_after: unix_seconds,
                ..old(self)@
            }),
    {
        set_for_one(&mut self.tls_certificate_expiry_seconds, "server_identity", unix_seconds);
        self.tls_identity_not_after = unix_seconds;
    }

    /// Whether the identity in use may be served now: the answer is that of
    /// `tls_identity_is_ready_at` for the time that the clock gives.
    pub fn tls_identity_is_ready(&self) -> (ready: bool)
        ensures
            exists|now: Option<u64>|
                ready == #[trigger] expiry_ready(self@.identity_not_after, now),
            self@.identity_not_after == NO_EXPIRY ==> ready,
            self@.identity_not_after < 0 ==> !ready,
    {
        let now: Option<u64> = unix_seconds_now();
        self.tls_identity_is_ready_at(now)
    }

    /// Whether the identity in use may be served when the clock gives `now`.
    pub fn tls_identity_is_ready_at(&self, now: Option<u64>) -> (ready: bool)
        ensures
            ready == expiry_ready(self@.identity_not_after, now),
    {
        identity_is_ready(self.tls_identity_not_after, now)
    }

    /// The metrics as text: a line for every sample.
    pub fn gather(&self) -> (text: Result<String, MetricsError>)
        ensures
            self.wf() ==> text is Ok && shows_counts(text->Ok_0@, self@),
            text is Ok ==> can_export(self@.registry, text->Ok_0@),
    {
        let counters: Vec<&CounterFamily> = vec![
            &self.quic_connections_total,
            &self.webtransport_sessions_total,
            &self.tls_reloads_total,
        ];
        let gauges: Vec<&GaugeFamily> = vec![&self.tls_certificate_expiry_seconds];
        proof {
            if self.wf() {
                let families = router_families();
                assert(Seq::new(counters@.len(), |i: int| counter_description(*counters@[i]))
                    + Seq::new(gauges@.len(), |i: int| gauge_description(*gauges@[i]))
                    =~= families);
                assert(counter_contents(counters@) =~= counter_exports(self@));
                assert(gauge_contents(gauges@) =~= gauge_exports(self@));
            }
        }
        export_text(&self.registry, &counters, &gauges)
    }
}

/// Whether the router is ready: it knows its targets, one of them is ready, and its identity may
/// be served.
pub fn router_is_ready(targets_known: bool, ready_targets: usize, identity_ready: bool) -> (ready:
    bool)
    ensures
        ready == (targets_known && ready_targets > 0 && identity_ready),
{
    targets_known && ready_targets > 0 && identity_ready
}

} // verus!
