//! Tunnels between pylons and stargates.

use std::sync::Arc;
use std::time::Duration;

use stargate::tunnel::address::{ordered_dial_candidates, quic_client_bind_addr, DialAddress};
use stargate::tunnel::connect::{
    handshake_error, reverse_quic_dial_candidates, reverse_quic_sni, reverse_quic_tunnel_config,
    timed_connect, token_header, webtransport_uri, DialAttempts, DialStep, Handshake,
    HandshakeProgress, HandshakeStep, NamedAddress, RegistrationSessionConfig,
    ReverseQuicTunnelConfig, StepOutcome, TunnelError,
};
use stargate::tunnel::listener::{
    check_connection_count, check_direct_registration, check_health_status, dispatch_connection,
    health_check_header, health_check_request_id, listener_step, needs_peer_resolution,
    parse_quic_target, request_connection, reverse_install_step, DirectError, Dispatch,
    InstallStep, IpAddress, ListenerEvent, ListenerStep, PeerResolution,
};
use stargate::tunnel::protocol::{is_success_status, TunnelTransportProtocol};
use stargate::tunnel::reverse_state::{
    reverse_tunnel_endpoint_from_ack, reverse_tunnel_sni_from_routing_target, routing_target_host,
    AwaitOutcome, BeginStep, ConnectOutcome, ConnectStep, HoldOutcome, HoldStep, RetryOutcome,
    ReverseTunnelEndpoint, ReverseTunnelLoop, ReverseTunnelState,
};
use stargate::tunnel::session::{
    bridge_step, check_stream_header, forward_step, serve_step, session_step,
    validate_webtransport_connect, BridgeEvent, ForwardStep, HeaderRead, ServeEvent, ServeStep,
    SessionEvent, SessionNext, SessionStage, StreamError,
};

#[derive(Clone, Copy)]
enum TunnelDirection {
    Direct,
    Reverse,
}

#[derive(Clone, Copy)]
struct TunnelTestCase {
    direction: TunnelDirection,
    protocol: TunnelTransportProtocol,
}

impl TunnelTestCase {
    fn direct(protocol: TunnelTransportProtocol) -> Self {
        TunnelTestCase { direction: TunnelDirection::Direct, protocol }
    }

    fn reverse(protocol: TunnelTransportProtocol) -> Self {
        TunnelTestCase { direction: TunnelDirection::Reverse, protocol }
    }

    fn reverse_tunnel(self) -> bool {
        matches!(self.direction, TunnelDirection::Reverse)
    }

    fn direction_label(self) -> &'static str {
        match self.direction {
            TunnelDirection::Direct => "direct",
            TunnelDirection::Reverse => "reverse",
        }
    }

    fn protocol_label(self) -> &'static str {
        self.protocol.as_str()
    }
}

#[test]
fn tunnel_test_case_reports_direction_and_protocol() {
    let direct = TunnelTestCase::direct(TunnelTransportProtocol::Http3);
    assert!(!direct.reverse_tunnel());
    assert_eq!(direct.direction_label(), "direct");
    assert_eq!(direct.protocol_label(), "http3");

    let reverse = TunnelTestCase::reverse(TunnelTransportProtocol::WebTransport);
    assert!(reverse.reverse_tunnel());
    assert_eq!(reverse.direction_label(), "reverse");
    assert_eq!(reverse.protocol_label(), "webtransport");
}

fn v4(ipv4: u32, port: u16) -> DialAddress {
    DialAddress::V4 { ipv4, port }
}

fn v6(ipv6: u128, port: u16) -> DialAddress {
    DialAddress::V6 { ipv6, port, flow_info: 0, scope_id: 0 }
}

#[test]
fn ordered_dial_candidates_prioritize_ipv4_without_discarding_ipv6() {
    let ipv6 = v6(0xfd00_0000_0000_0000_0000_0000_0000_0001, 50072);
    let ipv4 = v4(0x0a00_0004, 50072);

    assert_eq!(ordered_dial_candidates(&vec![ipv6, ipv4]), vec![ipv4, ipv6]);
    assert_eq!(quic_client_bind_addr(ipv4), v4(0, 0));
    assert_eq!(quic_client_bind_addr(ipv6), v6(0, 0));
}

const DEFAULT_MAX_SSE_BUFFER_BYTES: usize = 4096;

#[derive(Clone, Debug, PartialEq)]
struct Forwarding {
    max_request_body_bytes: usize,
    max_sse_buffer_bytes: usize,
    first_output_timeout: Duration,
    output_chunk_timeout: Duration,
}

impl Default for Forwarding {
    fn default() -> Self {
        Forwarding {
            max_request_body_bytes: 8192,
            max_sse_buffer_bytes: DEFAULT_MAX_SSE_BUFFER_BYTES,
            first_output_timeout: Duration::from_secs(30),
            output_chunk_timeout: Duration::from_secs(30),
        }
    }
}

#[derive(Debug, PartialEq)]
struct Provider(&'static str);

#[test]
fn crate_root_exports_tunnel_config_public_api() {
    let reverse_config = ReverseQuicTunnelConfig::<Forwarding, Provider> {
        target_addr: "stargate.example:50072".to_string(),
        inference_server_id: "reverse-a".to_string(),
        upstream_http_base_url: "http://127.0.0.1:8001".to_string(),
        forwarding: Forwarding {
            max_request_body_bytes: 2048,
            max_sse_buffer_bytes: 1024,
            first_output_timeout: Duration::from_secs(3),
            output_chunk_timeout: Duration::from_secs(4),
        },
        tls_cert_pem: None,
        quic_insecure: true,
        tunnel_protocol: TunnelTransportProtocol::Http3,
        sni_override: None,
        auth_token_provider: None,
    };
    assert_eq!(reverse_config.upstream_http_base_url, "http://127.0.0.1:8001");

    let default_reverse = ReverseQuicTunnelConfig::<Forwarding, Provider>::new(
        "stargate.example:50072".into(),
        "reverse-a".into(),
        "http://upstream".into(),
    );
    assert_eq!(default_reverse.forwarding.max_sse_buffer_bytes, DEFAULT_MAX_SSE_BUFFER_BYTES);
    assert_eq!(default_reverse.forwarding, Forwarding::default());
    assert!(default_reverse.auth_token_provider.is_none());
    assert_eq!(default_reverse.upstream_http_base_url, "http://upstream");
    assert_eq!(default_reverse.tunnel_protocol, TunnelTransportProtocol::RawQuic);
    assert!(!default_reverse.quic_insecure);
    assert!(default_reverse.sni_override.is_none());
}

#[test]
fn downstream_connect_validation_rejects_non_webtransport_requests() {
    let path = "/tunnel";
    assert!(!validate_webtransport_connect("GET", path, path, false));
    assert!(!validate_webtransport_connect("CONNECT", "/not-webtransport", path, true));
    assert!(!validate_webtransport_connect("CONNECT", path, path, false));
    assert!(validate_webtransport_connect("CONNECT", path, path, true));
}

fn endpoint(name: &str) -> ReverseTunnelEndpoint {
    ReverseTunnelEndpoint {
        routing_target_addr: format!("{name}:50071"),
        pylon_dial_addr: format!("{name}:50072"),
        sni_override: Some(name.to_string()),
    }
}

#[test]
fn tunnel_states_follow_announced_endpoints() {
    let a = endpoint("a");
    let b = endpoint("b");
    let mut state = ReverseTunnelState::AwaitingEndpoint;
    assert!(!state.mark_connected(&a));
    assert!(state.replace_endpoint(Some(a.duplicate())));
    assert!(!state.replace_endpoint(Some(a.duplicate())));
    assert!(!state.is_connected());
    assert!(!state.mark_connected(&b));
    assert!(state.mark_connected(&a));
    assert!(state.is_connected_to(&a));
    assert!(!state.is_connected_to(&b));
    assert!(!state.replace_endpoint(Some(a.duplicate())));
    assert!(state.is_connected());
    assert!(!state.mark_disconnected(&b));
    assert!(state.mark_disconnected(&a));
    assert!(!state.is_connected());
    assert!(state.mark_connected(&a));
    assert!(state.replace_endpoint(Some(b.duplicate())));
    assert!(!state.is_connected());
    assert!(state.endpoint().is_some_and(|known| known.same_as(&b)));
    assert!(state.replace_endpoint(None));
    assert!(state.endpoint().is_none());
}

#[test]
fn names_come_from_routing_targets() {
    assert_eq!(routing_target_host("stargate-1.example:50071"), "stargate-1.example");
    assert_eq!(routing_target_host("[fd00::1]:50071"), "fd00::1");
    assert_eq!(routing_target_host("plain"), "plain");
    assert_eq!(
        reverse_tunnel_sni_from_routing_target("stargate-1.example:50071", false),
        "stargate-1.example"
    );
    assert_eq!(reverse_tunnel_sni_from_routing_target("10.0.0.1:50071", true), "stargate");
    assert_eq!(reverse_tunnel_sni_from_routing_target("localhost:50071", false), "stargate");
}

#[test]
fn endpoints_are_announced_by_acks() {
    assert!(reverse_tunnel_endpoint_from_ack("", "lb.example:443", false).is_none());
    assert!(reverse_tunnel_endpoint_from_ack("sg-a.example:50072", " ", false).is_none());
    let plain =
        reverse_tunnel_endpoint_from_ack(" sg-a.example:50072", "sg-a.example:50072 ", false)
            .unwrap();
    assert_eq!(plain.routing_target_addr, "sg-a.example:50072");
    assert_eq!(plain.pylon_dial_addr, "sg-a.example:50072");
    assert!(plain.sni_override.is_none());
    let dialed =
        reverse_tunnel_endpoint_from_ack("sg-a.example:50072", "lb.example:443", false).unwrap();
    assert_eq!(dialed.pylon_dial_addr, "lb.example:443");
    assert_eq!(dialed.sni_override.as_deref(), Some("sg-a.example"));
}

#[test]
fn reconnection_waits_double_up_to_thirty_seconds() {
    let a = endpoint("a");
    let mut tunnel = ReverseTunnelLoop::new();
    let mut waits = Vec::new();
    for _ in 0..7 {
        match tunnel.after_connect(&a, ConnectOutcome::Failed) {
            ConnectStep::Wait { millis } => waits.push(millis),
            _ => panic!("a failed attempt is followed by a wait"),
        }
        assert!(tunnel.after_retry_wait(RetryOutcome::Elapsed));
    }
    assert_eq!(waits, [1_000, 2_000, 4_000, 8_000, 16_000, 30_000, 30_000]);
    assert!(tunnel.after_retry_wait(RetryOutcome::StateChanged));
    assert!(matches!(
        tunnel.after_connect(&a, ConnectOutcome::Failed),
        ConnectStep::Wait { millis: 1_000 }
    ));
    assert!(!tunnel.after_retry_wait(RetryOutcome::Stopped));
}

#[test]
fn tunnel_loops_hold_what_they_connected() {
    let a = endpoint("a");
    let b = endpoint("b");
    let mut tunnel = ReverseTunnelLoop::new();
    assert!(matches!(
        tunnel.begin(true, &ReverseTunnelState::Disconnected(a.duplicate())),
        BeginStep::Exit
    ));
    assert!(matches!(
        tunnel.begin(false, &ReverseTunnelState::AwaitingEndpoint),
        BeginStep::AwaitChange
    ));
    assert!(tunnel.after_await(AwaitOutcome::StateChanged));
    assert!(!tunnel.after_await(AwaitOutcome::ChannelClosed));
    assert!(matches!(
        tunnel.begin(false, &ReverseTunnelState::Disconnected(a.duplicate())),
        BeginStep::Connect(found) if found.same_as(&a)
    ));
    assert_eq!(
        tunnel.after_connect(
            &a,
            ConnectOutcome::Connected {
                marked: true,
                seen: ReverseTunnelState::Connected(a.duplicate()),
            },
        ),
        ConnectStep::Hold
    );
    assert_eq!(
        tunnel.after_connect(
            &a,
            ConnectOutcome::Connected {
                marked: false,
                seen: ReverseTunnelState::Disconnected(b.duplicate()),
            },
        ),
        ConnectStep::ShutDownAndRestart
    );
    assert_eq!(
        tunnel.after_hold(&a, HoldOutcome::Stopped),
        HoldStep::ShutDownAndExit { mark: true }
    );
    assert_eq!(
        tunnel.after_hold(&a, HoldOutcome::StateChanged),
        HoldStep::ShutDownMarkAndRestart
    );
}

#[test]
fn tunnel_configs_follow_endpoint_and_session() {
    let session = RegistrationSessionConfig {
        inference_server_id: "pylon-a".to_string(),
        inference_server_url: "http://127.0.0.1:8000".to_string(),
        forwarding: Forwarding { max_sse_buffer_bytes: 512, ..Forwarding::default() },
        tls_cert_pem: Some(b"pem".to_vec()),
        quic_insecure: true,
        tunnel_protocol: TunnelTransportProtocol::Http3,
        auth_token_provider: Some(Arc::new(Provider("file"))),
    };
    let config = reverse_quic_tunnel_config(&endpoint("a"), &session);
    assert_eq!(config.target_addr, "a:50072");
    assert_eq!(config.inference_server_id, "pylon-a");
    assert_eq!(config.upstream_http_base_url, "http://127.0.0.1:8000");
    assert_eq!(config.tls_cert_pem.as_deref(), Some(&b"pem"[..]));
    assert!(config.quic_insecure);
    assert_eq!(config.tunnel_protocol, TunnelTransportProtocol::Http3);
    assert_eq!(config.forwarding, session.forwarding);
    assert_eq!(config.auth_token_provider.as_deref(), Some(&Provider("file")));
    assert_eq!(reverse_quic_sni(&config, "derived".to_string()), "a");
    let plain = ReverseQuicTunnelConfig { sni_override: None, ..config };
    assert_eq!(reverse_quic_sni(&plain, "derived".to_string()), "derived");
}

#[test]
fn tokens_become_headers_unless_they_hold_control_characters() {
    assert!(matches!(token_header(&None), Ok(None)));
    let header = token_header(&Some("Bearer \u{e9}\t~".to_string())).unwrap().unwrap();
    assert_eq!(header.as_bytes(), "Bearer \u{e9}\t~".as_bytes());
    for refused in ["a\nb", "\u{7f}", "\u{0}"] {
        assert_eq!(
            token_header(&Some(refused.to_string())).unwrap_err(),
            TunnelError::Handshake {
                context: "validating reverse tunnel auth token header".to_string()
            }
        );
    }
    assert_eq!(health_check_header("a").unwrap().as_bytes(), b"stargate-health-a");
    assert_eq!(health_check_header("a\r").unwrap_err(), DirectError::InvalidRequestId);
}

#[test]
fn dialing_goes_through_all_addresses() {
    assert!(matches!(
        reverse_quic_dial_candidates(&Vec::new()),
        Err(TunnelError::NoResolvedAddress)
    ));
    let candidates = reverse_quic_dial_candidates(&vec![v6(1, 1), v4(2, 2)]).unwrap();
    let names = ["0.0.0.2:2", "[::1]:1"];
    let named = candidates
        .into_iter()
        .zip(names)
        .map(|(address, name)| NamedAddress { address, name: name.to_string() })
        .collect();
    let mut attempts = DialAttempts::new(named);
    assert!(matches!(attempts.next(), DialStep::Dial(address) if address == v4(2, 2)));
    attempts.failed("first".to_string());
    assert!(matches!(attempts.next(), DialStep::Dial(address) if address == v6(1, 1)));
    attempts.failed("second".to_string());
    assert!(matches!(
        attempts.next(),
        DialStep::GiveUp(message)
            if message
                == "failed to connect to every resolved reverse QUIC address: \
                    0.0.0.2:2: first; [::1]:1: second"
    ));
}

#[test]
fn handshakes_serve_only_with_consent() {
    let mut raw = Handshake::new(TunnelTransportProtocol::RawQuic);
    let mut steps = Vec::new();
    loop {
        steps.push(raw.step());
        let outcome = if raw.step() == HandshakeStep::ReadAck {
            StepOutcome::Ack { accepted: true, reason: String::new() }
        } else {
            StepOutcome::Done
        };
        match raw.advance(outcome) {
            HandshakeProgress::Next(step) => assert_eq!(step, raw.step()),
            HandshakeProgress::Serve => break,
            HandshakeProgress::Abort(_) => panic!("nothing failed"),
        }
    }
    assert_eq!(
        steps,
        [
            HandshakeStep::OpenStream,
            HandshakeStep::ResolveToken,
            HandshakeStep::WriteHandshake,
            HandshakeStep::FinishStream,
            HandshakeStep::ReadAck,
        ]
    );

    let mut refused = Handshake::new(TunnelTransportProtocol::WebTransport);
    while refused.step() != HandshakeStep::ReceiveResponse {
        refused.advance(StepOutcome::Done);
    }
    assert!(matches!(
        refused.advance(StepOutcome::Response { status: 403 }),
        HandshakeProgress::Abort(TunnelError::WebTransportConnectRejected { status: 403 })
    ));
    let mut failed = Handshake::new(TunnelTransportProtocol::Http3);
    assert!(matches!(
        failed.advance(StepOutcome::Failed),
        HandshakeProgress::Abort(TunnelError::Handshake { context })
            if context == "opening reverse tunnel handshake stream"
    ));
    assert!(matches!(
        handshake_error("x"),
        TunnelError::Handshake { context } if context == "x"
    ));
}

#[test]
fn connecting_takes_no_longer_than_allowed() {
    assert!(matches!(timed_connect(Some(Ok(5)), 10), Ok(5)));
    assert!(matches!(
        timed_connect::<u8>(None, 10),
        Err(TunnelError::ConnectTimeout { timeout_ms: 10 })
    ));
    assert_eq!(webtransport_uri("sg.example", "/tunnel"), "https://sg.example/tunnel");
}

#[test]
fn listeners_dispatch_until_they_are_stopped() {
    assert_eq!(listener_step(ListenerEvent::Incoming), ListenerStep::Dispatch);
    assert_eq!(listener_step(ListenerEvent::Stopped), ListenerStep::CloseAndExit);
    assert_eq!(listener_step(ListenerEvent::AcceptEnded), ListenerStep::CloseAndExit);
    assert!(needs_peer_resolution(true, &Some("sg-b".to_string())));
    assert!(!needs_peer_resolution(false, &Some("sg-b".to_string())));
    assert!(!needs_peer_resolution(true, &None));
    assert_eq!(
        dispatch_connection(Some(PeerResolution::Peer), TunnelTransportProtocol::RawQuic),
        Dispatch::Relay
    );
    assert_eq!(
        dispatch_connection(Some(PeerResolution::Local), TunnelTransportProtocol::WebTransport),
        Dispatch::WebTransportConnect
    );
    assert_eq!(
        dispatch_connection(None, TunnelTransportProtocol::Http3),
        Dispatch::Handshake
    );
    assert_eq!(
        reverse_install_step(false, TunnelTransportProtocol::RawQuic),
        InstallStep::Refuse
    );
    assert_eq!(
        reverse_install_step(true, TunnelTransportProtocol::WebTransport),
        InstallStep::RefuseWebTransport
    );
}

#[test]
fn direct_targets_are_quic_urls_with_an_address() {
    let target = parse_quic_target("quic://127.0.0.1:8443").unwrap();
    assert_eq!(target.host, "127.0.0.1");
    assert_eq!(target.port, 8443);
    assert_eq!(
        target.address(Some(IpAddress::V4(0x7f00_0001))),
        Ok(v4(0x7f00_0001, 8443))
    );
    assert_eq!(target.address(None), Err(DirectError::HostNotIp));
    assert_eq!(
        parse_quic_target("https://127.0.0.1:8443").err(),
        Some(DirectError::NotQuic)
    );
    assert_eq!(parse_quic_target("quic://127.0.0.1").err(), Some(DirectError::MissingPort));
    assert_eq!(parse_quic_target("not a url").err(), Some(DirectError::InvalidUrl));
    assert_eq!(check_connection_count(0), Err(DirectError::NoConnections));
    assert_eq!(check_connection_count(1), Ok(()));
    assert_eq!(check_direct_registration(true, true), Err(DirectError::ReverseTunnel));
    assert_eq!(check_direct_registration(false, false), Err(DirectError::RegistrationEnded));
    assert_eq!(check_direct_registration(false, true), Ok(()));
    assert_eq!(request_connection::<u8>(None), Err(DirectError::NotConnected));
    assert_eq!(request_connection::<u8>(Some(None)), Err(DirectError::ConnectionClosed));
    assert_eq!(request_connection(Some(Some(7))), Ok(7));
}

#[test]
fn health_checks_go_by_the_status() {
    assert_eq!(health_check_request_id("pylon-a"), "stargate-health-pylon-a");
    assert_eq!(check_health_status(204), Ok(()));
    assert_eq!(check_health_status(503), Err(DirectError::Unhealthy { status: 503 }));
    assert!(is_success_status(200));
    assert!(is_success_status(299));
    assert!(!is_success_status(199));
    assert!(!is_success_status(300));
}

#[test]
fn servers_reload_when_it_is_due() {
    assert_eq!(
        serve_step(ServeEvent::ReloadDue, true, false),
        ServeStep::Reload { identity: true, trust: false }
    );
    assert_eq!(serve_step(ServeEvent::Stopped, true, true), ServeStep::CloseAndExit);
    assert_eq!(serve_step(ServeEvent::AcceptEnded, true, true), ServeStep::Exit);
    assert_eq!(serve_step(ServeEvent::Incoming, true, true), ServeStep::Dispatch);
}

#[test]
fn sessions_count_refused_routes() {
    let step = session_step(
        SessionStage::Routing,
        SessionEvent::RouteRefused {
            outcome: "unknown_sni".to_string(),
            reason: b"unknown server name".to_vec(),
        },
    );
    assert_eq!(step.outcome.as_deref(), Some("unknown_sni"));
    assert_eq!(step.close.as_deref(), Some(&b"unknown server name"[..]));
    let started = session_step(SessionStage::Accepting, SessionEvent::Connected);
    assert!(started.close.is_none());
    assert!(matches!(started.next, SessionNext::Stage(SessionStage::Routing)));
    assert!(matches!(
        session_step(SessionStage::Accepting, SessionEvent::Stopped).next,
        SessionNext::Done
    ));
}

#[test]
fn upstream_non_success_statuses_are_passed_on() {
    assert_eq!(forward_step(200), ForwardStep::AcceptAndBridge);
    assert_eq!(forward_step(503), ForwardStep::RejectAndHold { status: 503 });
}

#[test]
fn bridges_close_the_other_side() {
    let closed = bridge_step(BridgeEvent::DownstreamClosed);
    assert_eq!(closed.close_upstream, Some("downstream webtransport closed"));
    assert_eq!(closed.close_downstream, None);
    let stopped = bridge_step(BridgeEvent::Stopped);
    assert_eq!(stopped.close_upstream, Some("shutdown"));
    assert_eq!(stopped.close_downstream, Some("shutdown"));
}

#[test]
fn stream_headers_have_to_name_the_session() {
    let matching = check_stream_header(HeaderRead::Session(4), 4);
    assert_eq!(matching.result, Ok(()));
    assert!(!matching.reset);
    let other = check_stream_header(HeaderRead::Session(8), 4);
    assert_eq!(other.result, Err(StreamError::SessionMismatch { got: 8, expected: 4 }));
    assert!(other.reset);
    assert_eq!(
        check_stream_header(HeaderRead::TimedOut, 4).result,
        Err(StreamError::HeaderTimedOut)
    );
    assert_eq!(
        check_stream_header(HeaderRead::Failed, 4).result,
        Err(StreamError::HeaderUnreadable)
    );
    assert_eq!(
        check_stream_header(HeaderRead::Cancelled, 4).result,
        Err(StreamError::Cancelled)
    );
}
