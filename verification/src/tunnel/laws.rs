//! What holds of tunnels: whom a worker dials, how it is let in, and how it stays connected.

use super::address::{of_family, ordered_dial_candidates, quic_client_bind_addr, DialAddress};
use super::connect::{
    advances, failed_with, handshake_steps, reverse_quic_dial_candidates, reverse_quic_sni,
    reverse_quic_tunnel_config,
    timed_connect, token_header, webtransport_uri, DialAttempts, DialStep, Handshake,
    HandshakeProgress, HandshakeStep, RegistrationSessionConfig, ReverseQuicTunnelConfig, StepOutcome, TunnelError,
};
use super::listener::{
    check_connection_count, check_direct_registration, check_health_status,
    health_check_header, health_check_request_id, listener_step, needs_peer_resolution,
    parse_quic_target, quic_target,
    request_connection, reverse_install_step, DirectError, InstallStep, IpAddress, ListenerEvent,
    ListenerStep, QuicTarget, UrlParts, url_parts,
};
use super::protocol::{header_value_text, is_success_status, TunnelTransportProtocol};
use super::reverse_state::{
    answers_connecting, answers_holding, answers_waiting, optional_endpoint,
    reverse_tunnel_endpoint_from_ack, reverse_tunnel_sni_from_routing_target,
    routing_target_host, AwaitOutcome, BeginStep, ConnectOutcome, ConnectStep, EndpointView, HoldOutcome,
    HoldStep, RetryOutcome, ReverseTunnelEndpoint, ReverseTunnelLoop, ReverseTunnelState,
    TunnelView,
};
use crate::text::{first_position, last_position, optional_text, trimmed};
use vstd::prelude::*;

verus! {

/// Whether an address is of version 4.
pub open spec fn is_v4() -> spec_fn(DialAddress) -> bool {
    |address: DialAddress| address is V4
}

/// Whether an address is of version 6.
pub open spec fn is_v6() -> spec_fn(DialAddress) -> bool {
    |address: DialAddress| address is V6
}

proof fn lemma_of_family(addresses: Seq<DialAddress>)
    ensures
        of_family(addresses, true) == addresses.filter(is_v4()),
        of_family(addresses, false) == addresses.filter(is_v6()),
    decreases addresses.len(),
{
    reveal(Seq::filter);
    if addresses.len() > 0 {
        lemma_of_family(addresses.drop_last());
    }
}

/// Addresses of version 4 are dialed first, then those of version 6, each in the order in which they
/// were resolved, and all of them. Without any there is nothing to dial.
pub proof fn addresses_are_dialed_by_family(
    resolved: Vec<DialAddress>,
    ordered: Vec<DialAddress>,
    candidates: Result<Vec<DialAddress>, TunnelError>,
)
    requires
        call_ensures(ordered_dial_candidates, (&resolved,), ordered),
        call_ensures(reverse_quic_dial_candidates, (&resolved,), candidates),
    ensures
        ordered@ == resolved@.filter(is_v4()) + resolved@.filter(is_v6()),
        candidates is Err <==> resolved@.len() == 0,
        candidates matches Err(error) ==> error is NoResolvedAddress,
        candidates matches Ok(dialed) ==> dialed@ == ordered@,
{
    lemma_of_family(resolved@);
}

/// A client binds to any free port of the family that it dials.
pub proof fn clients_bind_within_the_family(remote: DialAddress, local: DialAddress)
    requires
        call_ensures(quic_client_bind_addr, (remote,), local),
    ensures
        local is V4 <==> remote is V4,
        local matches DialAddress::V4 { ipv4, port } ==> ipv4 == 0 && port == 0,
        local matches DialAddress::V6 { ipv6, port, flow_info, scope_id } ==> ipv6 == 0 && port == 0
            && flow_info == 0 && scope_id == 0,
{
}

/// Candidates are dialed one after the other, each once, in order: as many as failed are behind, the
/// next one is dialed, and only once all have failed is it given up.
pub proof fn every_candidate_is_dialed_once(attempts: DialAttempts, step: DialStep)
    requires
        attempts.wf(),
        call_ensures(DialAttempts::next, (&attempts,), step),
    ensures
        step is GiveUp <==> attempts.errors().len() == attempts.candidates().len(),
        step matches DialStep::Dial(address) ==> attempts.candidates().skip(
            attempts.errors().len() as int,
        ).first().address == address,
{
}

/// Where a step stands among the steps of a handshake.
pub open spec fn stage_of(step: HandshakeStep) -> int {
    match step {
        HandshakeStep::OpenStream => 0,
        HandshakeStep::ResolveToken => 1,
        HandshakeStep::WriteHandshake => 2,
        HandshakeStep::CreateH3 => 3,
        HandshakeStep::BuildRequest => 4,
        HandshakeStep::ValidateToken => 5,
        HandshakeStep::SendRequest => 6,
        HandshakeStep::FinishStream => 7,
        HandshakeStep::FinishRequest => 8,
        HandshakeStep::ReadAck => 9,
        HandshakeStep::ReceiveResponse => 10,
    }
}

/// The steps of a handshake: the token is read before anything that carries it is written, what is
/// written is finished before an answer is read, and the answer is the last step. Web transport sends
/// a request; the other protocols write to a stream that they open.
pub proof fn handshakes_take_their_steps_in_order(
    protocol: TunnelTransportProtocol,
    step: HandshakeStep,
)
    ensures
        forall|i: int, j: int|
            0 <= i < j < handshake_steps(protocol).len() ==> stage_of(
                #[trigger] handshake_steps(protocol)[i],
            ) < stage_of(#[trigger] handshake_steps(protocol)[j]),
        handshake_steps(protocol).contains(step) <==> match step {
            HandshakeStep::ResolveToken => true,
            HandshakeStep::OpenStream
            | HandshakeStep::WriteHandshake
            | HandshakeStep::FinishStream
            | HandshakeStep::ReadAck => !(protocol is WebTransport),
            _ => protocol is WebTransport,
        },
{
    let web = seq![
        HandshakeStep::ResolveToken,
        HandshakeStep::CreateH3,
        HandshakeStep::BuildRequest,
        HandshakeStep::ValidateToken,
        HandshakeStep::SendRequest,
        HandshakeStep::FinishRequest,
        HandshakeStep::ReceiveResponse,
    ];
    let raw = seq![
        HandshakeStep::OpenStream,
        HandshakeStep::ResolveToken,
        HandshakeStep::WriteHandshake,
        HandshakeStep::FinishStream,
        HandshakeStep::ReadAck,
    ];
    if protocol is WebTransport {
        assert(handshake_steps(protocol) =~= web);
        assert(web[0] is ResolveToken && web[1] is CreateH3 && web[2] is BuildRequest && web[3]
            is ValidateToken && web[4] is SendRequest && web[5] is FinishRequest && web[6]
            is ReceiveResponse);
    } else {
        assert(handshake_steps(protocol) =~= raw);
        assert(raw[0] is OpenStream && raw[1] is ResolveToken && raw[2] is WriteHandshake && raw[3]
            is FinishStream && raw[4] is ReadAck);
    }
}

/// A handshake starts with its first step, and no step is left out: a step that is done leads to the
/// one behind it.
pub proof fn steps_that_are_done_lead_to_the_next(
    protocol: TunnelTransportProtocol,
    handshake: Handshake,
    at: int,
    outcome: StepOutcome,
    progress: HandshakeProgress,
    after: int,
)
    requires
        call_ensures(Handshake::new, (protocol,), handshake),
        0 <= at < handshake_steps(protocol).len(),
        advances(protocol, at, outcome, progress, after),
    ensures
        handshake.protocol() == protocol && handshake.done() == 0,
        handshake.current() == handshake_steps(protocol).first(),
        outcome is Done && at + 1 < handshake_steps(protocol).len() ==> progress
            == HandshakeProgress::Next(handshake_steps(protocol)[at + 1]) && after == at + 1,
        progress is Next <==> after == at + 1,
        progress is Next ==> outcome is Done,
{
    super::connect::consent_is_the_last_step(protocol, at);
}

/// A worker serves once the other side has consented, and not before: at the last step, on an
/// acknowledgement that accepts it or on a response between 200 and 299. A refusal is passed on; any
/// other failure names the step that failed.
pub proof fn a_worker_serves_once_it_is_let_in(
    protocol: TunnelTransportProtocol,
    at: int,
    outcome: StepOutcome,
    progress: HandshakeProgress,
    after: int,
)
    requires
        0 <= at < handshake_steps(protocol).len(),
        advances(protocol, at, outcome, progress, after),
    ensures
        progress is Serve <==> at == handshake_steps(protocol).len() - 1 && match outcome {
            StepOutcome::Ack { accepted, reason } => accepted && !(protocol is WebTransport),
            StepOutcome::Response { status } => 200 <= status <= 299 && protocol is WebTransport,
            _ => false,
        },
        outcome is Failed ==> failed_with(progress, handshake_steps(protocol)[at]),
        outcome matches StepOutcome::Ack { accepted, reason } ==> !accepted
            && handshake_steps(protocol)[at] is ReadAck ==> progress == HandshakeProgress::Abort(
            TunnelError::HandshakeRejected { reason },
        ),
        outcome matches StepOutcome::Response { status } ==> (status < 200 || status >= 300)
            && handshake_steps(protocol)[at] is ReceiveResponse ==> progress
            == HandshakeProgress::Abort(TunnelError::WebTransportConnectRejected { status }),
        progress is Serve || progress is Next || progress is Abort,
{
    super::connect::consent_is_the_last_step(protocol, at);
    handshakes_take_their_steps_in_order(protocol, handshake_steps(protocol)[at]);
    assert(handshake_steps(protocol).contains(handshake_steps(protocol)[at]));
}

/// A failure says what was being done. No two steps say the same.
pub proof fn failures_tell_steps_apart(
    a: HandshakeStep,
    b: HandshakeStep,
    one: &'static str,
    other: &'static str,
)
    requires
        call_ensures(HandshakeStep::failure_context, (a,), one),
        call_ensures(HandshakeStep::failure_context, (b,), other),
    ensures
        a != b ==> one@ != other@,
        one@.len() > 0,
{
    reveal_strlit("opening reverse tunnel handshake stream");
    reveal_strlit("reading reverse tunnel auth token");
    reveal_strlit("writing reverse tunnel handshake");
    reveal_strlit("finishing reverse tunnel handshake stream");
    reveal_strlit("reading reverse tunnel handshake ack");
    reveal_strlit("creating h3 client");
    reveal_strlit("building WebTransport CONNECT request");
    reveal_strlit("validating reverse tunnel auth token header");
    reveal_strlit("sending WebTransport CONNECT request");
    reveal_strlit("finishing WebTransport CONNECT request");
    reveal_strlit("receiving WebTransport CONNECT response");
    if a != b && one@.len() == other@.len() {
        assert(one@[0] != other@[0] || one@[8] != other@[8] || one@[9] != other@[9] || one@[22]
            != other@[22]);
    }
}

/// A token is sent as it is, or not at all; without a token no header is sent.
pub proof fn tokens_are_sent_as_they_are(
    token: Option<String>,
    header: Result<Option<http::HeaderValue>, TunnelError>,
)
    requires
        call_ensures(token_header, (&token,), header),
    ensures
        token is None ==> header is Ok && header->Ok_0 is None,
        token is Some && header is Ok ==> header->Ok_0 is Some && header_value_text(
            header->Ok_0->0,
        ) == token->0@,
        header is Err <==> token is Some && exists|i: int|
            0 <= i < token->0@.len() && #[trigger] token->0@[i] != '\t' && ((token->0@[i] as u32)
                < 32 || token->0@[i] as u32 == 127),
{
}

/// A tunnel presents the name that the router asks for, else the one that follows from its address;
/// it connects to the authority under https; and an attempt that does not end in time says how long
/// it was given.
pub proof fn connections_go_where_they_are_told<F, P, T>(
    config: ReverseQuicTunnelConfig<F, P>,
    derived: String,
    sni: String,
    authority: &str,
    path: &str,
    uri: String,
    attempt: Option<Result<T, TunnelError>>,
    timeout_ms: u64,
    result: Result<T, TunnelError>,
)
    requires
        call_ensures(reverse_quic_sni::<F, P>, (&config, derived), sni),
        call_ensures(webtransport_uri, (authority, path), uri),
        call_ensures(timed_connect::<T>, (attempt, timeout_ms), result),
    ensures
        config.sni_override is Some ==> sni@ == config.sni_override->0@,
        config.sni_override is None ==> sni@ == derived@,
        uri@ == "https://"@ + authority@ + path@,
        attempt is Some ==> result == attempt->0,
        attempt is None ==> result is Err && result->Err_0 == (TunnelError::ConnectTimeout {
            timeout_ms,
        }),
{
}

proof fn lemma_first(text: Seq<char>, c: char, from: int, at: int)
    requires
        0 <= from <= at < text.len(),
        text[at] == c,
        forall|i: int| from <= i < at ==> #[trigger] text[i] != c,
    ensures
        first_position(text, c, from) == at,
    decreases at - from,
{
    if from < at {
        lemma_first(text, c, from + 1, at);
    }
}

proof fn lemma_last(text: Seq<char>, c: char, end: int, at: int)
    requires
        -1 <= at < end <= text.len(),
        at >= 0 ==> text[at] == c,
        forall|i: int| at < i < end ==> #[trigger] text[i] != c,
    ensures
        last_position(text, c, end) == at,
    decreases end,
{
    if at < end - 1 && end > 1 {
        lemma_last(text, c, end - 1, at);
    } else if end == 1 {
        reveal_with_fuel(last_position, 2);
    }
}

/// The host of a target is what stands before its port, or between its brackets, or all of it where
/// there is neither.
pub proof fn hosts_are_read_from_targets(
    target: &str,
    host: &str,
    name: Seq<char>,
    rest: Seq<char>,
)
    requires
        call_ensures(routing_target_host, (target,), host),
    ensures
        target@ == name + seq![':'] + rest && !rest.contains(':') && !(target@.len() > 0
            && target@[0] == '[') ==> host@ == name,
        target@ == seq!['['] + name + seq![']'] + rest && !name.contains(']') ==> host@ == name,
        !target@.contains(':') && !(target@.len() > 0 && target@[0] == '[') ==> host@ == target@,
{
    let text = target@;
    if text == name + seq![':'] + rest && !rest.contains(':') && !(text.len() > 0 && text[0]
        == '[') {
        let at = name.len() as int;
        assert(text[at] == ':');
        assert forall|i: int| at < i < text.len() implies #[trigger] text[i] != ':' by {
            assert(text[i] == rest[i - at - 1]);
        }
        lemma_last(text, ':', text.len() as int, at);
        assert(text.subrange(0, at) =~= name);
    }
    if text == seq!['['] + name + seq![']'] + rest && !name.contains(']') {
        let at = name.len() as int + 1;
        assert(text[0] == '[');
        assert(text[at] == ']');
        assert forall|i: int| 1 <= i < at implies #[trigger] text[i] != ']' by {
            assert(text[i] == name[i - 1]);
        }
        lemma_first(text, ']', 1, at);
        assert(text.subrange(1, at) =~= name);
    }
    if !text.contains(':') && !(text.len() > 0 && text[0] == '[') {
        if text.len() > 0 {
            lemma_last(text, ':', text.len() as int, -1);
        }
    }
}

/// A worker asks for the host of its target by name, and for `stargate` where the host is an address
/// or this machine.
pub proof fn servers_are_asked_for_by_name(
    target: &str,
    host_is_ip: bool,
    host: &str,
    sni: String,
)
    requires
        call_ensures(routing_target_host, (target,), host),
        call_ensures(reverse_tunnel_sni_from_routing_target, (target, host_is_ip), sni),
    ensures
        host_is_ip || host@ == "localhost"@ ==> sni@ == "stargate"@,
        !host_is_ip && host@ != "localhost"@ ==> sni@ == host@,
{
}

/// An announced endpoint is taken without the white space around it; with either address blank there
/// is none. The name to ask for is given only where the dialed address is not the target itself.
pub proof fn announced_endpoints_are_taken_as_announced(
    target: &str,
    dial_addr: &str,
    host_is_ip: bool,
    endpoint: Option<ReverseTunnelEndpoint>,
    sni: String,
)
    requires
        call_ensures(
            reverse_tunnel_endpoint_from_ack,
            (target, dial_addr, host_is_ip),
            endpoint,
        ),
    ensures
        endpoint is None <==> trimmed(target@).len() == 0 || trimmed(dial_addr@).len() == 0,
        endpoint matches Some(known) ==> {
            &&& known.routing_target_addr@ == trimmed(target@)
            &&& known.pylon_dial_addr@ == trimmed(dial_addr@)
            &&& known.sni_override is None <==> trimmed(dial_addr@) == trimmed(target@)
            &&& forall|address: &str|
                known.sni_override is Some && address@ == trimmed(target@) && #[trigger]
                    call_ensures(
                    reverse_tunnel_sni_from_routing_target,
                    (address, host_is_ip),
                    sni,
                ) ==> known.sni_override->0@ == sni@
        },
{
}

/// An endpoint that is announced anew is disconnected at first, and one that is withdrawn is awaited;
/// the same endpoint announced again changes nothing. Only a disconnected endpoint becomes connected,
/// and only the one that is connected becomes disconnected.
pub proof fn endpoints_connect_and_disconnect(
    state: TunnelView,
    endpoint: EndpointView,
)
    ensures
        state.endpoint() != Some(endpoint) ==> state.with_endpoint(Some(endpoint))
            == TunnelView::Disconnected(endpoint),
        state.endpoint() == Some(endpoint) ==> state.with_endpoint(Some(endpoint)) == state,
        state.with_endpoint(None) is AwaitingEndpoint,
        TunnelView::Disconnected(endpoint).connected_to(endpoint) == TunnelView::Connected(endpoint),
        TunnelView::Connected(endpoint).disconnected_from(endpoint) == TunnelView::Disconnected(
            endpoint,
        ),
        state.connected_to(endpoint) is Connected && !(state is Connected) ==> state
            == TunnelView::Disconnected(endpoint),
        state.disconnected_from(endpoint) is Disconnected && !(state is Disconnected) ==> state
            == TunnelView::Connected(endpoint),
        state.endpoint() is None <==> state is AwaitingEndpoint,
{
}

/// A worker that is stopped ends; one that knows no endpoint waits for one; any other connects to the
/// endpoint that it knows.
pub proof fn workers_connect_to_the_known_endpoint(
    tunnel: ReverseTunnelLoop,
    stopped: bool,
    state: ReverseTunnelState,
    step: BeginStep,
)
    requires
        call_ensures(ReverseTunnelLoop::begin, (&tunnel, stopped, &state), step),
    ensures
        step is Exit <==> stopped,
        step is AwaitChange <==> !stopped && state is AwaitingEndpoint,
        step matches BeginStep::Connect(endpoint) ==> match state {
            ReverseTunnelState::AwaitingEndpoint => false,
            ReverseTunnelState::Disconnected(known) => endpoint@ == known@,
            ReverseTunnelState::Connected(known) => endpoint@ == known@,
        },
{
}

/// A tunnel is held only if it was marked as connected and still is, to the endpoint it was made for;
/// otherwise it is shut down. A failure waits, a change of state starts over at once with the shortest
/// wait ahead, and being stopped ends the loop.
pub proof fn tunnels_are_held_while_they_are_wanted(
    endpoint: EndpointView,
    backoff: int,
    outcome: ConnectOutcome,
    step: ConnectStep,
    after: int,
)
    requires
        1_000 <= backoff <= 30_000,
        answers_connecting(endpoint, backoff, outcome, step, after),
    ensures
        step is Exit <==> outcome is Stopped || outcome is ChannelClosed,
        step is Restart <==> outcome is StateChanged,
        step is Wait <==> outcome is Failed,
        step is Wait ==> step->millis == backoff,
        step is Hold <==> (outcome is Connected && outcome->marked && outcome->seen@
            == TunnelView::Connected(endpoint)),
        outcome is Connected && !(step is Hold) ==> step is ShutDownAndRestart,
        step is Restart || step is ShutDownAndRestart ==> after == 1_000,
        !(step is Restart || step is ShutDownAndRestart) ==> after == backoff,
{
}

/// A tunnel that drops is tried again after a wait, which is the shortest again if the tunnel had
/// stood for more than a minute; one that is wanted no more is not waited for. A tunnel that is
/// stopped, or whose state changes, is shut down and marked; one whose owner is gone is not marked.
pub proof fn dropped_tunnels_are_tried_again(
    endpoint: EndpointView,
    backoff: int,
    outcome: HoldOutcome,
    step: HoldStep,
    after: int,
)
    requires
        1_000 <= backoff <= 30_000,
        answers_holding(endpoint, backoff, outcome, step, after),
    ensures
        outcome is Stopped <==> step == (HoldStep::ShutDownAndExit { mark: true }),
        outcome is ChannelClosed <==> step == (HoldStep::ShutDownAndExit { mark: false }),
        outcome is StateChanged <==> step is ShutDownMarkAndRestart,
        step is ShutDownMarkAndRestart || step is Restart ==> after == 1_000,
        step is ShutDownAndExit ==> after == backoff,
        step is Wait ==> step->millis == after,
        outcome matches HoldOutcome::Dropped { disconnected, seen, connected_nanos } ==> {
            &&& step is Restart <==> disconnected && optional_endpoint(seen) != Some(endpoint)
            &&& step is Restart || step is Wait
            &&& step is Wait && connected_nanos > 60 * 1_000_000_000 ==> after == 1_000
            &&& step is Wait && connected_nanos <= 60 * 1_000_000_000 ==> after == backoff
        },
{
}

/// Waits double from one to the next, from one second up to thirty; a change of state cuts them short
/// and starts over.
pub proof fn waits_double_until_something_changes(
    backoff: int,
    outcome: RetryOutcome,
    goes_on: bool,
    after: int,
)
    requires
        1_000 <= backoff <= 30_000,
        answers_waiting(backoff, outcome, goes_on, after),
    ensures
        goes_on <==> !(outcome is Stopped || outcome is ChannelClosed),
        outcome is Elapsed && backoff <= 15_000 ==> after == backoff + backoff,
        outcome is Elapsed && backoff > 15_000 ==> after == 30_000,
        outcome is StateChanged ==> after == 1_000,
        !goes_on ==> after == backoff,
        1_000 <= after <= 30_000,
{
}

/// A listener takes connections until it is stopped or can take no more. It asks who a connection is
/// from only where it can find out and the connection says.
pub proof fn listeners_take_connections_until_they_end(
    event: ListenerEvent,
    step: ListenerStep,
    has_resolver: bool,
    server_name: Option<String>,
    needed: bool,
)
    requires
        call_ensures(listener_step, (event,), step),
        call_ensures(needs_peer_resolution, (has_resolver, &server_name), needed),
    ensures
        step is CloseAndExit <==> event is Stopped || event is AcceptEnded,
        step is Dispatch <==> event is Incoming,
        needed ==> has_resolver && server_name is Some,
        !needed ==> !has_resolver || server_name is None,
{
}

/// A connection is installed for a registration that is open, as the protocol that it speaks; web
/// transport is not installed this way.
pub proof fn connections_are_installed_by_protocol(
    registration_open: bool,
    protocol: TunnelTransportProtocol,
    step: InstallStep,
)
    requires
        call_ensures(reverse_install_step, (registration_open, protocol), step),
    ensures
        step is Refuse <==> !registration_open,
        registration_open ==> (step is InstallRaw <==> protocol is RawQuic),
        registration_open ==> (step is BuildH3 <==> protocol is Http3),
        registration_open ==> (step is RefuseWebTransport <==> protocol is WebTransport),
{
}

/// Workers are reached directly over at least one connection, unless they are reached through a
/// reverse tunnel or their registration has ended.
pub proof fn workers_are_reached_directly(
    connections: usize,
    counted: Result<(), DirectError>,
    reverse_tunnel: bool,
    active: bool,
    checked: Result<(), DirectError>,
)
    requires
        call_ensures(check_connection_count, (connections,), counted),
        call_ensures(check_direct_registration, (reverse_tunnel, active), checked),
    ensures
        counted is Ok <==> connections >= 1,
        counted is Err ==> counted->Err_0 is NoConnections,
        checked is Ok <==> !reverse_tunnel && active,
        reverse_tunnel ==> checked is Err && checked->Err_0 is ReverseTunnel,
        !reverse_tunnel && !active ==> checked is Err && checked->Err_0 is RegistrationEnded,
{
}

/// A target is a host and a port under the scheme `quic`; what is missing is said.
pub proof fn targets_are_a_host_and_a_port(
    parts: Option<UrlParts>,
    target: Result<QuicTarget, DirectError>,
    ip: Option<IpAddress>,
    address: Result<DialAddress, DirectError>,
)
    requires
        call_ensures(quic_target, (parts,), target),
        target is Ok ==> call_ensures(QuicTarget::address, (&target->Ok_0, ip), address),
    ensures
        parts is None ==> target is Err && target->Err_0 is InvalidUrl,
        parts matches Some(found) ==> {
            &&& target is Ok <==> found.scheme@ == "quic"@ && found.port is Some && found.host
                is Some
            &&& target matches Ok(made) ==> Some(made.port) == found.port && made.host@
                == found.host->0@
            &&& found.scheme@ != "quic"@ ==> target->Err_0 is NotQuic
            &&& found.scheme@ == "quic"@ && found.port is None ==> target->Err_0 is MissingPort
            &&& found.scheme@ == "quic"@ && found.port is Some && found.host is None
                ==> target->Err_0 is HostNotIp
        },
        target is Ok ==> (address is Ok <==> ip is Some),
        target is Ok && ip is None ==> address->Err_0 is HostNotIp,
        target is Ok ==> (ip matches Some(IpAddress::V4(number)) ==> address == Ok::<
            DialAddress,
            DirectError,
        >(DialAddress::V4 { ipv4: number, port: target->Ok_0.port })),
        target is Ok ==> (ip matches Some(IpAddress::V6(number)) ==> address == Ok::<
            DialAddress,
            DirectError,
        >(DialAddress::V6 { ipv6: number, port: target->Ok_0.port, flow_info: 0, scope_id: 0 })),
{
}

/// A request goes over a healthy connection, and says whether there was none or none healthy.
pub proof fn requests_go_over_healthy_connections<T>(
    connections: Option<Option<T>>,
    connection: Result<T, DirectError>,
)
    requires
        call_ensures(request_connection::<T>, (connections,), connection),
    ensures
        connection matches Ok(taken) ==> connections == Some(Some(taken)),
        connection is Ok <==> connections is Some && connections->0 is Some,
        connections is None ==> connection->Err_0 is NotConnected,
        connections is Some && connections->0 is None ==> connection->Err_0 is ConnectionClosed,
{
}

/// A worker is healthy that answers with a status between 200 and 299. The requests by which it is
/// asked are told from others, and those to different workers from each other.
pub proof fn healthy_workers_answer_with_success(
    status: u16,
    success: bool,
    healthy: Result<(), DirectError>,
    worker: &str,
    other: &str,
    id: String,
    other_id: String,
)
    requires
        call_ensures(is_success_status, (status,), success),
        call_ensures(check_health_status, (status,), healthy),
        call_ensures(health_check_request_id, (worker,), id),
        call_ensures(health_check_request_id, (other,), other_id),
    ensures
        success <==> status as int / 100 == 2,
        healthy is Ok <==> success,
        healthy is Err ==> healthy->Err_0 == (DirectError::Unhealthy { status }),
        "stargate-health-"@.is_prefix_of(id@),
        id@ == other_id@ <==> worker@ == other@,
{
    let prefix = "stargate-health-"@;
    assert(id@.take(prefix.len() as int) =~= prefix);
    if id@ == other_id@ {
        assert(worker@ =~= id@.skip(prefix.len() as int));
        assert(other@ =~= other_id@.skip(prefix.len() as int));
    }
}

/// A tunnel is opened with what the registration and the announced endpoint say.
pub proof fn tunnels_are_opened_as_registered<F: Clone, P>(
    endpoint: ReverseTunnelEndpoint,
    session: RegistrationSessionConfig<F, P>,
    config: ReverseQuicTunnelConfig<F, P>,
)
    requires
        call_ensures(reverse_quic_tunnel_config::<F, P>, (&endpoint, &session), config),
    ensures
        config.target_addr@ == endpoint.pylon_dial_addr@,
        config.sni_override is Some <==> endpoint.sni_override is Some,
        config.sni_override is Some ==> config.sni_override->0@ == endpoint.sni_override->0@,
        config.inference_server_id@ == session.inference_server_id@,
        config.upstream_http_base_url@ == session.inference_server_url@,
        cloned(session.forwarding, config.forwarding),
        config.tls_cert_pem is Some <==> session.tls_cert_pem is Some,
        config.tls_cert_pem is Some ==> config.tls_cert_pem->0@ == session.tls_cert_pem->0@,
        config.quic_insecure == session.quic_insecure,
        config.tunnel_protocol == session.tunnel_protocol,
        config.auth_token_provider == session.auth_token_provider,
{
}

/// A target that is given as a text is what its parts are, and a worker is asked for its health by the
/// name that the request for it bears.
pub proof fn targets_and_health_checks_go_by_their_text(
    text: &str,
    target: Result<QuicTarget, DirectError>,
    worker: &str,
    id: String,
    header: Result<http::HeaderValue, DirectError>,
)
    requires
        call_ensures(parse_quic_target, (text,), target),
        call_ensures(health_check_request_id, (worker,), id),
        call_ensures(health_check_header, (worker,), header),
    ensures
        url_parts(text@) is None ==> target is Err && target->Err_0 is InvalidUrl,
        target matches Ok(made) ==> (url_parts(text@) matches Some((scheme, port, host)) && scheme
            == "quic"@ && port == Some(made.port) && host == Some(made.host@)),
        header matches Ok(value) ==> header_value_text(value) == id@,
        header is Err ==> header->Err_0 is InvalidRequestId,
{
}

/// A worker that waits for an endpoint goes on when its state changes, and ends otherwise.
pub proof fn workers_wait_for_a_change(
    tunnel: ReverseTunnelLoop,
    outcome: AwaitOutcome,
    goes_on: bool,
    protocol: TunnelTransportProtocol,
    label: &'static str,
)
    requires
        call_ensures(ReverseTunnelLoop::after_await, (&tunnel, outcome), goes_on),
        call_ensures(TunnelTransportProtocol::as_str, (protocol,), label),
    ensures
        goes_on <==> !(outcome is Stopped || outcome is ChannelClosed),
        protocol is RawQuic ==> label@ == "raw-quic"@,
        protocol is Http3 ==> label@ == "http3"@,
        protocol is WebTransport ==> label@ == "webtransport"@,
{
}

/// A failed handshake says at which of its steps it failed.
pub proof fn failed_steps_are_named(step: HandshakeStep, context: &'static str)
    requires
        call_ensures(HandshakeStep::failure_context, (step,), context),
    ensures
        step is OpenStream ==> context@ == "opening reverse tunnel handshake stream"@,
        step is ResolveToken ==> context@ == "reading reverse tunnel auth token"@,
        step is WriteHandshake ==> context@ == "writing reverse tunnel handshake"@,
        step is FinishStream ==> context@ == "finishing reverse tunnel handshake stream"@,
        step is ReadAck ==> context@ == "reading reverse tunnel handshake ack"@,
        step is CreateH3 ==> context@ == "creating h3 client"@,
        step is BuildRequest ==> context@ == "building WebTransport CONNECT request"@,
        step is ValidateToken ==> context@ == "validating reverse tunnel auth token header"@,
        step is SendRequest ==> context@ == "sending WebTransport CONNECT request"@,
        step is FinishRequest ==> context@ == "finishing WebTransport CONNECT request"@,
        step is ReceiveResponse ==> context@ == "receiving WebTransport CONNECT response"@,
{
}

} // verus!
