//! What a stargate starts with, what it registers, and what it traces.

use stargate::load_balancer::comparator::{ClusterComparator, ClusterComparatorTrace};
use stargate::load_balancer::score::Score;
use stargate::registration::client::InferenceServerRegistrationClient;
use stargate::registration::supervisor::{
    supervisor_step, RegistrationSupervisor, SupervisorEvent, SupervisorStep,
};
use stargate::startup::args::{
    validate_backend_connectivity_args, validate_discovery_args, Args, BackendConnectivity,
    StartupError,
};
use stargate::startup::discovery::{
    discovery_plan_from_args, reverse_tunnel_plan_from_args, DiscoveryPlan,
};
use stargate::startup::proxy::{
    proxy_retry_config_from_args, proxy_transport_config_from_args, tls_files_from_args,
};
use stargate::startup::runtime::runtime_config_from_args;
use stargate::startup::worker_auth::{
    split_at_dots, worker_auth_startup_from_args, TokenSource,
};
use stargate::text::{decimal_text, join, text_at_most, trim};
use stargate::tls::identity::ServerTlsIdentity;
use stargate::tls::reload::{ClientTrustReloader, ServerIdentityReloader};
use stargate::trace::{
    record_request_to_span, record_routing_to_span, FieldValue, RequestTraceFields,
    RoutingTraceFields, SpanField, TracedStats,
};
use stargate::tunnel::address::DialAddress;
use stargate::tunnel::protocol::TunnelTransportProtocol;

fn args() -> Args {
    Args {
        stargate_id: "sg-a".to_string(),
        listen_addr: "0.0.0.0:50071".to_string(),
        model_discovery_listen_addr: "0.0.0.0:50073".to_string(),
        http_listen_addr: "0.0.0.0:8080".to_string(),
        metrics_port: 9090,
        metrics_prefix: None,
        advertise_addr: DialAddress::V4 { ipv4: 0x0a00_0001, port: 50071 },
        stargate_discovery_dns_name: "stargate.internal".to_string(),
        remote_stargate_url: vec!["https://remote".to_string()],
        grpc_pylon_dial_addr: None,
        dns_poll_ms: 1000,
        dns_resolver_ttl_ms: 2000,
        watch_heartbeat_ms: 3000,
        registration_update_idle_timeout_ms: 4000,
        registration_update_max_idle_timeout_ms: 5000,
        lb_config_path: None,
        disable_dns_discovery: false,
        enable_dev_peer_forwarding: false,
        pod_name: None,
        pod_namespace: None,
        advertised_hostname_template: None,
        backend_connectivity: BackendConnectivity::Direct,
        reverse_tunnel_listen_addr: None,
        reverse_tunnel_pylon_dial_addr: None,
        reverse_tunnel_connect_timeout_ms: 6000,
        tls_cert_path: None,
        tls_key_path: None,
        quic_insecure: false,
        quic_connect_timeout_ms: 7000,
        quic_request_timeout_ms: 8000,
        tunnel_protocol: TunnelTransportProtocol::Http3,
        direct_quic_connections: 2,
        proxy_max_connect_retries: 3,
        proxy_max_request_retries: 4,
        proxy_max_replay_body_bytes: 5,
        proxy_require_pylon_retry_signal: true,
        proxy_retry_budget_header: String::new(),
    }
}

fn text(value: &str) -> Option<String> {
    Some(value.to_string())
}

#[test]
fn connectivity_arguments_go_together() {
    assert_eq!(validate_backend_connectivity_args(&args()), Ok(()));
    let mut listening = args();
    listening.reverse_tunnel_listen_addr = text("0.0.0.0:50072");
    assert_eq!(
        validate_backend_connectivity_args(&listening),
        Err(StartupError::ListenAddrNeedsReverse)
    );
    let mut dialed = args();
    dialed.reverse_tunnel_pylon_dial_addr = text("lb:50072");
    assert_eq!(
        validate_backend_connectivity_args(&dialed),
        Err(StartupError::DialAddrNeedsReverse)
    );
    let mut reverse = args();
    reverse.backend_connectivity = BackendConnectivity::Reverse;
    assert_eq!(
        validate_backend_connectivity_args(&reverse),
        Err(StartupError::ReverseNeedsListenAddr)
    );
    reverse.reverse_tunnel_listen_addr = text("0.0.0.0:50072");
    assert_eq!(validate_backend_connectivity_args(&reverse), Ok(()));
    assert_eq!(
        StartupError::ReverseNeedsListenAddr.message(),
        "--backend-connectivity=reverse requires --reverse-tunnel-listen-addr"
    );
}

#[test]
fn discovery_follows_the_pod() {
    let http = DialAddress::V4 { ipv4: 0, port: 8080 };
    let mut given = args();
    let advertise = given.advertise_addr;
    assert!(matches!(
        discovery_plan_from_args(&given, advertise, http),
        Ok(DiscoveryPlan::Dns { http_port: 8080, resolver_ttl_ms: 2000, .. })
    ));
    given.pod_name = text("stargate-0");
    given.pod_namespace = text("prod");
    match discovery_plan_from_args(&given, advertise, http) {
        Ok(DiscoveryPlan::Headless {
            self_pod_name,
            advertised_hostname_template,
            grpc_port,
            forwarding,
            ..
        }) => {
            assert_eq!(self_pod_name, "stargate-0");
            assert_eq!(advertised_hostname_template, "{pod_name}.stargate.external");
            assert_eq!(grpc_port, 50071);
            assert!(forwarding.is_none());
        }
        _ => panic!("a known pod is found by its headless service"),
    }
    given.enable_dev_peer_forwarding = true;
    match discovery_plan_from_args(&given, advertise, http) {
        Ok(DiscoveryPlan::Headless { forwarding: Some(peers), .. }) => {
            assert_eq!(peers.namespace, "prod");
            assert_eq!(peers.headless_dns_suffix, "stargate.internal");
        }
        _ => panic!("peers are forwarded to"),
    }
    given.pod_namespace = None;
    assert_eq!(validate_discovery_args(&given), Err(StartupError::ForwardingWithoutPod));
    given.disable_dns_discovery = true;
    assert_eq!(
        discovery_plan_from_args(&given, advertise, http).err(),
        Some(StartupError::ForwardingWithoutDiscovery)
    );
    given.enable_dev_peer_forwarding = false;
    assert!(matches!(
        discovery_plan_from_args(&given, advertise, http),
        Ok(DiscoveryPlan::SelfOnly { http_port: 8080, .. })
    ));
}

#[test]
fn reverse_listeners_are_named_after_their_pod() {
    let mut given = args();
    assert!(reverse_tunnel_plan_from_args(&given).is_none());
    given.reverse_tunnel_listen_addr = text("0.0.0.0:50072");
    let plan = reverse_tunnel_plan_from_args(&given).unwrap();
    assert_eq!(plan.listen_addr, "0.0.0.0:50072");
    assert_eq!(plan.hostname_template, "{pod_name}.stargate.external");
    assert_eq!(plan.pod_name, "sg-a");
    assert_eq!(plan.pod_namespace, "");
    assert_eq!(plan.connect_timeout_ms, 6000);
    given.pod_name = text("stargate-0");
    given.advertised_hostname_template = text("{pod_name}.example");
    let named = reverse_tunnel_plan_from_args(&given).unwrap();
    assert_eq!(named.pod_name, "stargate-0");
    assert_eq!(named.hostname_template, "{pod_name}.example");
}

#[test]
fn retry_budget_headers_are_normalised() {
    let mut given = args();
    assert_eq!(
        proxy_retry_config_from_args(&given).unwrap().request_retry_budget_ms_header,
        None
    );
    given.proxy_retry_budget_header = "  X-Retry-Budget-Ms\t".to_string();
    let config = proxy_retry_config_from_args(&given).unwrap();
    assert_eq!(config.request_retry_budget_ms_header.as_deref(), Some("x-retry-budget-ms"));
    assert_eq!(config.max_connect_retries, 3);
    assert_eq!(config.max_request_retries, 4);
    assert_eq!(config.max_replay_body_bytes, 5);
    assert!(config.require_pylon_retry_signal);
    for invalid in ["x retry", "x:retry", "x-r\u{e9}try", "a(b)"] {
        given.proxy_retry_budget_header = invalid.to_string();
        assert_eq!(
            proxy_retry_config_from_args(&given).err(),
            Some(StartupError::InvalidRetryBudgetHeader),
            "{invalid}"
        );
    }
    given.proxy_retry_budget_header = "!#$%&'*+-.^_`|~09AZ".to_string();
    assert_eq!(
        proxy_retry_config_from_args(&given)
            .unwrap()
            .request_retry_budget_ms_header
            .as_deref(),
        Some("!#$%&'*+-.^_`|~09az")
    );
    given.proxy_retry_budget_header = "h".repeat(65535);
    assert!(proxy_retry_config_from_args(&given).is_ok());
    given.proxy_retry_budget_header = "h".repeat(65536);
    assert!(proxy_retry_config_from_args(&given).is_err());
}

#[test]
fn tls_material_comes_in_pairs_where_backends_dial() {
    let mut given = args();
    given.tls_cert_path = text("/tls/tls.crt");
    let direct = tls_files_from_args(&given).unwrap();
    assert!(direct.server_identity.is_none());
    assert_eq!(direct.client_trust.as_deref(), Some("/tls/tls.crt"));
    given.reverse_tunnel_listen_addr = text("0.0.0.0:50072");
    assert_eq!(tls_files_from_args(&given).err(), Some(StartupError::TlsKeyPathMissing));
    given.tls_key_path = text("/tls/tls.key");
    given.quic_insecure = true;
    let files = tls_files_from_args(&given).unwrap();
    assert_eq!(
        files.server_identity,
        Some(("/tls/tls.crt".to_string(), "/tls/tls.key".to_string()))
    );
    assert!(files.client_trust.is_none());
    given.tls_cert_path = None;
    assert_eq!(tls_files_from_args(&given).err(), Some(StartupError::TlsCertPathMissing));
}

#[test]
fn transports_carry_what_the_reloaders_hold() {
    let given = args();
    let retry = proxy_retry_config_from_args(&given).unwrap();
    let plain = proxy_transport_config_from_args(&given, retry, None, None);
    assert_eq!(plain.quic.server_tls_identity, ServerTlsIdentity::SelfSigned);
    assert!(plain.quic.tls_cert_pem.is_none());
    assert_eq!(plain.quic.tls_reload_interval_seconds, 10);
    assert_eq!(plain.quic.connect_timeout_ms, 7000);
    assert_eq!(plain.quic.request_timeout_ms, 8000);
    assert_eq!(plain.quic.direct_quic_connections, 2);

    let identity = ServerTlsIdentity::Provided { cert_pem: vec![1], key_pem: vec![2] };
    let retry = proxy_retry_config_from_args(&given).unwrap();
    let loaded = proxy_transport_config_from_args(
        &given,
        retry,
        ServerIdentityReloader::load(Ok(identity.clone())).ok(),
        ClientTrustReloader::load(Ok(vec![3])).ok(),
    );
    assert_eq!(loaded.quic.server_tls_identity, identity);
    assert_eq!(loaded.quic.tls_cert_pem, Some(vec![3]));
}

#[test]
fn runtimes_need_addresses_to_listen_on() {
    let given = args();
    let transport = || {
        let retry = proxy_retry_config_from_args(&given).unwrap();
        proxy_transport_config_from_args(&given, retry, None, None)
    };
    let address = |port| Some(DialAddress::V4 { ipv4: 0, port });
    let config =
        runtime_config_from_args(&given, address(1), address(2), address(3), transport()).unwrap();
    assert_eq!(config.stargate_id, "sg-a");
    assert_eq!(Some(config.model_discovery_listen_addr), address(2));
    assert_eq!(config.metrics_listen_addr, address(9090));
    assert_eq!(config.remote_watch_stargate_urls, ["https://remote"]);
    assert_eq!(config.dns_poll_interval_ms, 1000);
    assert_eq!(
        runtime_config_from_args(&given, address(1), None, address(3), transport()).err(),
        Some(StartupError::InvalidListenAddr)
    );
}

#[test]
fn worker_auth_tokens_come_from_one_source() {
    assert!(matches!(
        worker_auth_startup_from_args(None, text("/s"), None, text("host")),
        Ok(None)
    ));
    assert!(matches!(
        worker_auth_startup_from_args(text("grpc://auth"), None, None, None),
        Ok(Some((endpoint, None))) if endpoint == "grpc://auth"
    ));
    assert!(matches!(
        worker_auth_startup_from_args(text("grpc://auth"), None, None, text("host")),
        Err(StartupError::SecretsPathMissing)
    ));
    match worker_auth_startup_from_args(text("e"), text("/secrets"), None, text("host")) {
        Ok(Some((_, Some(TokenSource::ClientCredentials { provider_host, secrets_path, scope })))) => {
            assert_eq!(provider_host, "host");
            assert_eq!(secrets_path, "/secrets");
            assert_eq!(scope, "llm:check_worker");
        }
        _ => panic!("tokens come from the provider"),
    }
    match worker_auth_startup_from_args(text("e"), text("/secrets"), text("a.b.c"), None) {
        Ok(Some((_, Some(TokenSource::JsonFile { path, key })))) => {
            assert_eq!(path, "/secrets");
            assert_eq!(key, ["a", "b", "c"]);
        }
        _ => panic!("tokens come from the file"),
    }
    match worker_auth_startup_from_args(text("e"), text("/secrets"), None, None) {
        Ok(Some((_, Some(TokenSource::JsonFile { key, .. })))) => assert_eq!(key, ["authToken"]),
        _ => panic!("tokens come from the file"),
    }
    assert_eq!(split_at_dots(""), [""]);
    assert_eq!(split_at_dots("a..b."), ["a", "", "b", ""]);
    assert_eq!(join(&split_at_dots("a..b."), "."), "a..b.");
}

fn names(list: &[&str]) -> Option<Vec<String>> {
    Some(list.iter().map(|name| name.to_string()).collect())
}

fn sorted(mut list: Vec<String>) -> Vec<String> {
    list.sort();
    list
}

#[test]
fn one_registration_stream_runs_for_each_published_router() {
    let mut supervisor = RegistrationSupervisor::new();
    let none = supervisor.reconcile(&None);
    assert!(none.started.is_empty() && none.retired.is_empty());
    let first = supervisor.reconcile(&names(&["a", "b", "a"]));
    assert_eq!(sorted(first.started), ["a", "b"]);
    assert!(first.retired.is_empty());
    let second = supervisor.reconcile(&names(&["b", "c"]));
    assert_eq!(second.started, ["c"]);
    assert_eq!(second.retired, ["a"]);
    let again = supervisor.reconcile(&names(&["c", "b"]));
    assert!(again.started.is_empty() && again.retired.is_empty());
    assert_eq!(sorted(supervisor.shut_down()), ["b", "c"]);
    assert!(supervisor.shut_down().is_empty());
    assert_eq!(supervisor_step(SupervisorEvent::TopologyChanged), SupervisorStep::Reconcile);
    assert_eq!(supervisor_step(SupervisorEvent::TopologyClosed), SupervisorStep::ShutDown);
    assert_eq!(supervisor_step(SupervisorEvent::Stopped), SupervisorStep::ShutDown);
}

#[test]
fn a_client_runs_one_session_at_a_time() {
    let mut client: InferenceServerRegistrationClient<u8> =
        InferenceServerRegistrationClient::new();
    assert!(!client.is_running());
    assert_eq!(client.stop(), None);
    assert_eq!(client.start::<String>(Ok(1)), Ok(None));
    assert_eq!(client.start(Err("bad".to_string())), Err("bad".to_string()));
    assert!(client.is_running());
    assert_eq!(client.start::<String>(Ok(2)), Ok(Some(1)));
    *client.running_mut().expect("a session runs") += 1;
    assert_eq!(client.stop(), Some(3));
    assert!(client.running_mut().is_none());
}

fn score(value: f64) -> Score {
    Score { bits: value.to_bits() }
}

fn find(records: &[(SpanField, FieldValue)], name: &str) -> Option<String> {
    records
        .iter()
        .find(|(field, _)| field.as_str() == name)
        .map(|(_, value)| match value {
            FieldValue::Text(text) => text.clone(),
            FieldValue::Number(number) => number.to_string(),
            FieldValue::Signed(number) => format!("{number:+}"),
            FieldValue::Flag(flag) => flag.to_string(),
            FieldValue::Fraction(fraction) => f64::from_bits(fraction.bits).to_string(),
        })
}

#[test]
fn requests_are_traced_with_what_they_say() {
    let records = record_request_to_span(RequestTraceFields {
        routing_key: None,
        model_id: "model-a",
        request_path: "/v1/chat/completions",
        input_tokens: 11,
        priority: 3,
        max_wait_ms: Some(250),
        request_slo_ms: None,
        cache_affinity_key_present: true,
    });
    assert_eq!(records.len(), 8);
    assert_eq!(find(&records, "request.routing_key").as_deref(), Some(""));
    assert_eq!(find(&records, "request.model_id").as_deref(), Some("model-a"));
    assert_eq!(find(&records, "request.path").as_deref(), Some("/v1/chat/completions"));
    assert_eq!(find(&records, "request.input_tokens").as_deref(), Some("11"));
    assert_eq!(find(&records, "request.priority").as_deref(), Some("3"));
    assert_eq!(find(&records, "request.max_wait_ms").as_deref(), Some("250"));
    assert_eq!(find(&records, "request.slo_ms").as_deref(), Some("0"));
    assert_eq!(find(&records, "request.cache_affinity_key_present").as_deref(), Some("true"));
}

#[test]
fn choices_are_traced_with_their_comparison() {
    let stats = TracedStats {
        output_tps: score(1.5),
        last_mean_input_tps: score(2.0),
        max_output_tps: score(3.0),
        queue_size: 4,
        queued_input_size: 5,
        num_running_queries: 6,
        max_engine_concurrency: 7,
        total_query_input_size: 8,
        kv_cache_capacity_tokens: 9,
        kv_cache_used_tokens: 10,
        kv_cache_free_tokens: 11,
        rtt_ms: score(12.5),
        snapshot_age_ms: score(13.5),
    };
    let routing = |comparator, rank_depth| {
        record_routing_to_span(RoutingTraceFields {
            routing_algorithm: "power-of-n",
            requested_algorithm: Some("power_of_n"),
            num_candidates: 2,
            rank_depth,
            selected_after_kv_free_tokens_skip: false,
            comparator,
            cluster_id: "cluster-a",
            inference_server_id: "pylon-a",
            stats,
        })
    };
    let plain = routing(None, 1);
    assert_eq!(plain.len(), 20);
    assert_eq!(find(&plain, "routing.algorithm").as_deref(), Some("power-of-n"));
    assert_eq!(find(&plain, "selected_cluster.id").as_deref(), Some("cluster-a"));
    assert_eq!(find(&plain, "selected_inst.output_tps").as_deref(), Some("1.5"));
    assert_eq!(find(&plain, "selected_inst.kv_cache_free_tokens").as_deref(), Some("11"));
    assert_eq!(find(&plain, "routing.comparator"), None);
    assert_eq!(find(&plain, "routing.num_candidates").as_deref(), Some("2"));
    assert_eq!(find(&plain, "routing.rank_depth").as_deref(), Some("+1"));
    assert_eq!(find(&routing(None, usize::MAX), "routing.rank_depth").as_deref(), Some("-1"));
    let trace = ClusterComparatorTrace {
        comparator: ClusterComparator::QueueTime,
        score: score(20.0),
        queue_ms: Some(score(20.0)),
        prefill_ms: None,
        rtt_ms: None,
    };
    let compared = routing(Some(trace), 1);
    assert_eq!(compared.len(), 23);
    assert_eq!(find(&compared, "routing.comparator").as_deref(), Some("queue-time"));
    assert_eq!(find(&compared, "routing.comparator.score").as_deref(), Some("20"));
    assert_eq!(find(&compared, "routing.comparator.queue_ms").as_deref(), Some("20"));
    assert_eq!(find(&compared, "routing.comparator.rtt_ms"), None);
}

#[test]
fn texts_are_trimmed_joined_and_ordered() {
    assert_eq!(trim(" \t\u{2003}a b\n"), "a b");
    assert_eq!(trim("\u{a0}"), "");
    assert_eq!(trim("\u{200b}x"), "\u{200b}x");
    assert_eq!(decimal_text(0), "0");
    assert_eq!(decimal_text(u64::MAX), "18446744073709551615");
    assert!(text_at_most("a", "ab"));
    assert!(text_at_most("ab", "ab"));
    assert!(!text_at_most("b", "ab"));
}
