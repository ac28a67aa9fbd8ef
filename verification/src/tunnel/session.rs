//! A WebTransport session that a router relays from a client to the worker it asks for.

use super::listener::SHUTDOWN_REASON;
use super::protocol::{is_success_status, success_status};
use crate::text::same_text;
use crate::tls::rotation::TRUST_REPLACED_REASON;
use vstd::prelude::*;
use vstd::string::StringSliceAdditionalSpecFns;

verus! {

/// What a router that serves WebTransport waits for.
#[derive(Clone, Copy, Debug, PartialEq, Eq, Structural)]
pub enum ServeEvent {
    /// The router stops.
    Stopped,
    /// TLS material may have changed.
    ReloadDue,
    /// The endpoint accepts no more connections.
    AcceptEnded,
    /// A connection comes in.
    Incoming,
}

/// What a router that serves WebTransport does next.
#[derive(Clone, Copy, Debug, PartialEq, Eq, Structural)]
pub enum ServeStep {
    /// The endpoint is closed, and serving ends.
    CloseAndExit,
    /// Serving ends.
    Exit,
    /// The material that is reloaded is read again: identity first, trust second.
    Reload { identity: bool, trust: bool },
    /// The connection gets a session of its own.
    Dispatch,
}

/// What a router that serves WebTransport does next. `identity` and `trust` say what it reloads.
pub fn serve_step(event: ServeEvent, identity: bool, trust: bool) -> (step: ServeStep)
    ensures
        step == match event {
            ServeEvent::Stopped => ServeStep::CloseAndExit,
            ServeEvent::ReloadDue => ServeStep::Reload { identity, trust },
            ServeEvent::AcceptEnded => ServeStep::Exit,
            ServeEvent::Incoming => ServeStep::Dispatch,
        },
{
    match event {
        ServeEvent::Stopped => ServeStep::CloseAndExit,
        ServeEvent::ReloadDue => ServeStep::Reload { identity, trust },
        ServeEvent::AcceptEnded => ServeStep::Exit,
        ServeEvent::Incoming => ServeStep::Dispatch,
    }
}

/// The reason given to clients when the router stops.
pub const ROUTER_SHUTDOWN_REASON: &'static str = "router shutdown";

/// The status that a client is answered when its worker cannot be reached.
pub const BAD_GATEWAY: u16 = 502;

/// The status that a client is answered when its request is not one for a session.
pub const BAD_REQUEST: u16 = 400;

/// The stages of a session.
#[derive(Clone, Copy, Debug, PartialEq, Eq, Structural)]
pub enum SessionStage {
    /// The client's connection is being accepted.
    Accepting,
    /// The worker that the client asks for is looked up.
    Routing,
    /// The client's request for a session is awaited.
    Requesting,
    /// The session to the worker is being opened.
    Opening,
    /// Streams are relayed.
    Relaying,
}

/// What happens in a stage.
pub enum SessionEvent {
    /// The router stops.
    Stopped,
    /// The client's connection is there.
    Connected,
    /// The client's connection failed.
    ConnectFailed,
    /// The worker is known.
    RouteFound,
    /// There is no such worker: the outcome to count and the reason to close with.
    RouteRefused { outcome: String, reason: Vec<u8> },
    /// Other servers are trusted now.
    TrustReplaced,
    /// Nothing will be said of trust any more.
    TrustChannelClosed,
    /// The client asked for a session.
    SessionRequested,
    /// The client asked for something else, and was told so.
    RequestRefused,
    /// The client went away.
    ClientClosed,
    /// The client's request failed.
    RequestFailed,
    /// The session to the worker is open.
    Opened,
    /// The worker cannot be reached.
    OpenFailed,
    /// Relaying ended.
    RelayCompleted,
    /// The worker refused the session, and the client was told so.
    UpstreamRejected,
    /// Relaying failed.
    RelayFailed,
}

/// How a session goes on after an event.
pub enum SessionNext {
    /// The next stage.
    Stage(SessionStage),
    /// The session is over.
    Done,
    /// The session is over with the error of the event.
    Failed,
    /// The client was refused: its connection is held until it or the router ends.
    HoldRefused,
    /// The client is answered `BAD_GATEWAY`, its connection is held until it or the router ends,
    /// and the session is over with the error of the event.
    RefuseHoldAndFail,
}

/// What a router does on an event: an outcome to count, a reason to close the client's connection
/// with, and how the session goes on.
pub struct SessionStep {
    pub outcome: Option<String>,
    pub close: Option<Vec<u8>>,
    pub next: SessionNext,
}

/// The contents of a `SessionStep`.
pub struct SessionStepView {
    pub outcome: Option<Seq<char>>,
    pub close: Option<Seq<u8>>,
    pub next: SessionNext,
}

impl View for SessionStep {
    type V = SessionStepView;

    open spec fn view(&self) -> SessionStepView {
        SessionStepView {
            outcome: crate::text::optional_text(self.outcome),
            close: super::connect::optional_bytes(self.close),
            next: self.next,
        }
    }
}

/// Whether an event can happen in a stage.
pub open spec fn event_of_stage(stage: SessionStage, event: SessionEvent) -> bool {
    match stage {
        SessionStage::Accepting => event is Stopped || event is Connected || event is ConnectFailed,
        SessionStage::Routing => event is RouteFound || event is RouteRefused,
        SessionStage::Requesting => interrupts(event) || event is SessionRequested
            || event is RequestRefused || event is ClientClosed || event is RequestFailed,
        SessionStage::Opening => interrupts(event) || event is Opened || event is OpenFailed,
        SessionStage::Relaying => interrupts(event) || event is RelayCompleted
            || event is UpstreamRejected || event is RelayFailed,
    }
}

/// Whether an event interrupts any stage in which the client's connection is open.
pub open spec fn interrupts(event: SessionEvent) -> bool {
    event is Stopped || event is TrustReplaced || event is TrustChannelClosed
}

/// What a router does on an event.
pub open spec fn session_step_view(stage: SessionStage, event: SessionEvent) -> SessionStepView {
    let quiet = |next: SessionNext|
        SessionStepView { outcome: None, close: None, next };
    let counted = |outcome: Seq<char>, next: SessionNext|
        SessionStepView { outcome: Some(outcome), close: None, next };
    match event {
        SessionEvent::Stopped => if stage is Accepting {
            quiet(SessionNext::Done)
        } else {
            SessionStepView {
                outcome: None,
                close: Some(ROUTER_SHUTDOWN_REASON.spec_bytes()),
                next: SessionNext::Done,
            }
        },
        SessionEvent::TrustReplaced => SessionStepView {
            outcome: Some("trust_replaced"@),
            close: Some(TRUST_REPLACED_REASON.spec_bytes()),
            next: SessionNext::Done,
        },
        SessionEvent::TrustChannelClosed => quiet(SessionNext::Failed),
        SessionEvent::Connected => quiet(SessionNext::Stage(SessionStage::Routing)),
        SessionEvent::ConnectFailed => quiet(SessionNext::Failed),
        SessionEvent::RouteFound => counted(
            "accepted"@,
            SessionNext::Stage(SessionStage::Requesting),
        ),
        SessionEvent::RouteRefused { outcome, reason } => SessionStepView {
            outcome: Some(outcome@),
            close: Some(reason@),
            next: SessionNext::Done,
        },
        SessionEvent::SessionRequested => quiet(SessionNext::Stage(SessionStage::Opening)),
        SessionEvent::RequestRefused => counted("invalid_connect"@, SessionNext::HoldRefused),
        SessionEvent::ClientClosed => quiet(SessionNext::Done),
        SessionEvent::RequestFailed => counted("invalid_connect"@, SessionNext::Failed),
        SessionEvent::Opened => quiet(SessionNext::Stage(SessionStage::Relaying)),
        SessionEvent::OpenFailed => counted(
            "upstream_connect_error"@,
            SessionNext::RefuseHoldAndFail,
        ),
        SessionEvent::RelayCompleted => counted("completed"@, SessionNext::Done),
        SessionEvent::UpstreamRejected => counted("upstream_rejected"@, SessionNext::HoldRefused),
        SessionEvent::RelayFailed => counted("relay_error"@, SessionNext::Failed),
    }
}

fn quiet_step(next: SessionNext) -> (step: SessionStep)
    ensures
        step@ == (SessionStepView { outcome: None, close: None, next }),
{
    SessionStep { outcome: None, close: None, next }
}

fn counted_step(outcome: &str, next: SessionNext) -> (step: SessionStep)
    ensures
        step@ == (SessionStepView { outcome: Some(outcome@), close: None, next }),
{
    SessionStep { outcome: Some(outcome.to_owned()), close: None, next }
}

/// What a router does on an event of a session.
pub fn session_step(stage: SessionStage, event: SessionEvent) -> (step: SessionStep)
    requires
        event_of_stage(stage, event),
    ensures
        step@ == session_step_view(stage, event),
{
    match event {
        SessionEvent::Stopped => {
            if stage == SessionStage::Accepting {
                quiet_step(SessionNext::Done)
            } else {
                SessionStep {
                    outcome: None,
                    close: Some(ROUTER_SHUTDOWN_REASON.as_bytes_vec()),
                    next: SessionNext::Done,
                }
            }
        },
        SessionEvent::TrustReplaced => SessionStep {
            outcome: Some("trust_replaced".to_owned()),
            close: Some(TRUST_REPLACED_REASON.as_bytes_vec()),
            next: SessionNext::Done,
        },
        SessionEvent::TrustChannelClosed => quiet_step(SessionNext::Failed),
        SessionEvent::Connected => quiet_step(SessionNext::Stage(SessionStage::Routing)),
        SessionEvent::ConnectFailed => quiet_step(SessionNext::Failed),
        SessionEvent::RouteFound => counted_step(
            "accepted",
            SessionNext::Stage(SessionStage::Requesting),
        ),
        SessionEvent::RouteRefused { outcome, reason } => SessionStep {
            outcome: Some(outcome),
            close: Some(reason),
            next: SessionNext::Done,
        },
        SessionEvent::SessionRequested => quiet_step(SessionNext::Stage(SessionStage::Opening)),
        SessionEvent::RequestRefused => counted_step("invalid_connect", SessionNext::HoldRefused),
        SessionEvent::ClientClosed => quiet_step(SessionNext::Done),
        SessionEvent::RequestFailed => counted_step("invalid_connect", SessionNext::Failed),
        SessionEvent::Opened => quiet_step(SessionNext::Stage(SessionStage::Relaying)),
        SessionEvent::OpenFailed => counted_step(
            "upstream_connect_error",
            SessionNext::RefuseHoldAndFail,
        ),
        SessionEvent::RelayCompleted => counted_step("completed", SessionNext::Done),
        SessionEvent::UpstreamRejected => counted_step(
            "upstream_rejected",
            SessionNext::HoldRefused,
        ),
        SessionEvent::RelayFailed => counted_step("relay_error", SessionNext::Failed),
    }
}

/// The stages come in one order, so a session has at most five.
pub open spec fn stage_number(stage: SessionStage) -> int {
    match stage {
        SessionStage::Accepting => 0,
        SessionStage::Routing => 1,
        SessionStage::Requesting => 2,
        SessionStage::Opening => 3,
        SessionStage::Relaying => 4,
    }
}

/// A session goes forward stage by stage: an event leads to the next stage or ends the session.
pub proof fn sessions_go_forward(stage: SessionStage, event: SessionEvent)
    requires
        event_of_stage(stage, event),
    ensures
        session_step_view(stage, event).next matches SessionNext::Stage(next) ==> stage_number(next)
            == stage_number(stage) + 1,
        stage is Relaying ==> !(session_step_view(stage, event).next is Stage),
{
}

/// Once trust is replaced, a session whose client is connected and routed is closed with that
/// reason, whatever its stage, and counted as replaced.
pub proof fn trust_replacement_closes_sessions(stage: SessionStage)
    requires
        stage is Requesting || stage is Opening || stage is Relaying,
    ensures
        event_of_stage(stage, SessionEvent::TrustReplaced),
        ({
            let step = session_step_view(stage, SessionEvent::TrustReplaced);
            &&& step.outcome == Some("trust_replaced"@)
            &&& step.close == Some(TRUST_REPLACED_REASON.spec_bytes())
            &&& step.next is Done
        }),
{
}

/// A session that ends after it was accepted is counted once more when it ends, unless the
/// router stops, the client goes away before it asked for a session, or nothing more is said of
/// trust.
pub proof fn accepted_sessions_are_counted_when_they_end(stage: SessionStage, event: SessionEvent)
    requires
        event_of_stage(stage, event),
        stage is Requesting || stage is Opening || stage is Relaying,
        !(session_step_view(stage, event).next is Stage),
    ensures
        session_step_view(stage, event).outcome is Some <==> !(event is Stopped
            || event is ClientClosed || event is TrustChannelClosed),
{
}

/// Every stage is left forwards on its success, and on nothing else: from a connection to its
/// route, from the route to the request, from the request to the worker, and from the worker to
/// relaying. So a session in which every step succeeds is relayed.
pub proof fn success_leads_to_the_next_stage(
    stage: SessionStage,
    event: SessionEvent,
    step: SessionStep,
)
    requires
        event_of_stage(stage, event),
        call_ensures(session_step, (stage, event), step),
    ensures
        step.next is Stage <==> event is Connected || event is RouteFound
            || event is SessionRequested || event is Opened,
        event is Connected <==> step.next == SessionNext::Stage(SessionStage::Routing),
        event is RouteFound <==> step.next == SessionNext::Stage(SessionStage::Requesting),
        event is SessionRequested <==> step.next == SessionNext::Stage(SessionStage::Opening),
        event is Opened <==> step.next == SessionNext::Stage(SessionStage::Relaying),
{
}

/// A session in which every step succeeds goes on from each step to the next until it is relayed,
/// is counted as accepted on its way and as completed at its end, and is never closed by the router.
pub proof fn successful_sessions_are_relayed(
    connected: SessionStep,
    routed: SessionStep,
    requested: SessionStep,
    opened: SessionStep,
    relayed: SessionStep,
)
    requires
        call_ensures(session_step, (SessionStage::Accepting, SessionEvent::Connected), connected),
        call_ensures(session_step, (connected.next->Stage_0, SessionEvent::RouteFound), routed),
        call_ensures(
            session_step,
            (routed.next->Stage_0, SessionEvent::SessionRequested),
            requested,
        ),
        call_ensures(session_step, (requested.next->Stage_0, SessionEvent::Opened), opened),
        call_ensures(session_step, (opened.next->Stage_0, SessionEvent::RelayCompleted), relayed),
    ensures
        connected.next is Stage && event_of_stage(
            connected.next->Stage_0,
            SessionEvent::RouteFound,
        ),
        routed.next is Stage && event_of_stage(
            routed.next->Stage_0,
            SessionEvent::SessionRequested,
        ),
        requested.next is Stage && event_of_stage(requested.next->Stage_0, SessionEvent::Opened),
        opened.next is Stage && opened.next->Stage_0 is Relaying,
        relayed.next is Done,
        connected.outcome is None && requested.outcome is None && opened.outcome is None,
        routed.outcome is Some && routed.outcome->0@ == "accepted"@,
        relayed.outcome is Some && relayed.outcome->0@ == "completed"@,
        connected.close is None && routed.close is None && requested.close is None
            && opened.close is None && relayed.close is None,
{
}

/// How a session ends says how it fared. It ends with an error exactly where something failed: a
/// connection, a request, the worker, relaying or the news of trust. A client that was refused is
/// held, by the router or by the worker, and one whose worker cannot be reached is told so first.
/// In all other ways a session just ends.
pub proof fn the_end_of_a_session_says_how_it_fared(
    stage: SessionStage,
    event: SessionEvent,
    step: SessionStep,
)
    requires
        event_of_stage(stage, event),
        call_ensures(session_step, (stage, event), step),
    ensures
        step.next is Failed || step.next is RefuseHoldAndFail <==> event is ConnectFailed
            || event is RequestFailed || event is OpenFailed || event is RelayFailed
            || event is TrustChannelClosed,
        step.next is RefuseHoldAndFail <==> event is OpenFailed,
        step.next is HoldRefused <==> event is RequestRefused || event is UpstreamRejected,
        step.next is Done <==> event is Stopped || event is TrustReplaced || event is RouteRefused
            || event is ClientClosed || event is RelayCompleted,
{
}

/// A client's connection is closed with a reason where the router ends it: it stops, trust was
/// replaced, or there is no such worker. What was said of the worker is passed on as it is, and
/// the two other reasons differ, so a client can tell them apart.
pub proof fn clients_are_told_why_they_are_closed(
    stage: SessionStage,
    event: SessionEvent,
    step: SessionStep,
)
    requires
        event_of_stage(stage, event),
        call_ensures(session_step, (stage, event), step),
    ensures
        step.close is Some <==> (event is Stopped && !(stage is Accepting))
            || event is TrustReplaced || event is RouteRefused,
        event matches SessionEvent::RouteRefused { outcome, reason } ==> step.close->0@ == reason@
            && step.outcome is Some && step.outcome->0@ == outcome@,
        event is Stopped && !(stage is Accepting) ==> step.close->0@
            == "router shutdown".spec_bytes(),
        event is TrustReplaced ==> step.close->0@
            == "TLS trust configuration replaced".spec_bytes(),
{
}

/// Sessions that fare differently are counted under different outcomes: only a request that was
/// refused and one that failed are counted alike.
pub proof fn outcomes_tell_sessions_apart(
    stage: SessionStage,
    event: SessionEvent,
    step: SessionStep,
    other_stage: SessionStage,
    other_event: SessionEvent,
    other: SessionStep,
)
    requires
        event_of_stage(stage, event),
        event_of_stage(other_stage, other_event),
        call_ensures(session_step, (stage, event), step),
        call_ensures(session_step, (other_stage, other_event), other),
        !(event is RouteRefused),
        !(other_event is RouteRefused),
        step.outcome is Some,
        other.outcome is Some,
    ensures
        event is RouteFound ==> step.outcome->0@ == "accepted"@,
        event is TrustReplaced ==> step.outcome->0@ == "trust_replaced"@,
        event is RequestRefused || event is RequestFailed ==> step.outcome->0@
            == "invalid_connect"@,
        event is OpenFailed ==> step.outcome->0@ == "upstream_connect_error"@,
        event is RelayCompleted ==> step.outcome->0@ == "completed"@,
        event is UpstreamRejected ==> step.outcome->0@ == "upstream_rejected"@,
        event is RelayFailed ==> step.outcome->0@ == "relay_error"@,
        step.outcome->0@ == other.outcome->0@ ==> {
            ||| event is RouteFound && other_event is RouteFound
            ||| event is TrustReplaced && other_event is TrustReplaced
            ||| (event is RequestRefused || event is RequestFailed) && (
            other_event is RequestRefused || other_event is RequestFailed)
            ||| event is OpenFailed && other_event is OpenFailed
            ||| event is RelayCompleted && other_event is RelayCompleted
            ||| event is UpstreamRejected && other_event is UpstreamRejected
            ||| event is RelayFailed && other_event is RelayFailed
        },
{
    reveal_strlit("accepted");
    reveal_strlit("trust_replaced");
    reveal_strlit("invalid_connect");
    reveal_strlit("upstream_connect_error");
    reveal_strlit("completed");
    reveal_strlit("upstream_rejected");
    reveal_strlit("relay_error");
    assert("accepted"@.len() == 8 && "trust_replaced"@.len() == 14 && "invalid_connect"@.len() == 15
        && "upstream_connect_error"@.len() == 22 && "completed"@.len() == 9
        && "upstream_rejected"@.len() == 17 && "relay_error"@.len() == 11);
}

/// What a router does with the worker's answer to the request for a session.
#[derive(Clone, Copy, Debug, PartialEq, Eq, Structural)]
pub enum ForwardStep {
    /// The client is answered 200, and streams are relayed.
    AcceptAndBridge,
    /// The client is answered the worker's status, and its connection is held.
    RejectAndHold { status: u16 },
}

/// What a router does with the worker's answer to the request for a session.
pub fn forward_step(status: u16) -> (step: ForwardStep)
    ensures
        step == if success_status(status) {
            ForwardStep::AcceptAndBridge
        } else {
            ForwardStep::RejectAndHold { status }
        },
{
    if is_success_status(status) {
        ForwardStep::AcceptAndBridge
    } else {
        ForwardStep::RejectAndHold { status }
    }
}

/// Whether a request is one for a WebTransport session: a CONNECT for the tunnel path that names
/// the protocol.
pub fn validate_webtransport_connect(
    method: &str,
    path: &str,
    tunnel_path: &str,
    names_webtransport: bool,
) -> (valid: bool)
    ensures
        valid == (method@ == "CONNECT"@ && path@ == tunnel_path@ && names_webtransport),
{
    same_text(method, "CONNECT") && same_text(path, tunnel_path) && names_webtransport
}

/// What a router that relays streams waits for.
#[derive(Clone, Copy, Debug, PartialEq, Eq, Structural)]
pub enum BridgeEvent {
    /// The router stops.
    Stopped,
    /// The client's connection closed.
    DownstreamClosed,
    /// The worker's connection closed.
    UpstreamClosed,
    /// The worker opened a stream.
    StreamOpened,
}

/// Which connections are closed, with which reasons; relaying goes on while neither is.
pub struct BridgeStep {
    pub close_downstream: Option<&'static str>,
    pub close_upstream: Option<&'static str>,
}

/// The contents of an optional reason.
pub open spec fn reason_text(reason: Option<&'static str>) -> Option<Seq<char>> {
    match reason {
        Some(reason) => Some(reason@),
        None => None,
    }
}

/// What a router that relays streams does next: the end of one connection ends the other.
pub fn bridge_step(event: BridgeEvent) -> (step: BridgeStep)
    ensures
        reason_text(step.close_downstream) == match event {
            BridgeEvent::Stopped => Some(SHUTDOWN_REASON@),
            BridgeEvent::UpstreamClosed => Some("upstream webtransport closed"@),
            _ => None,
        },
        reason_text(step.close_upstream) == match event {
            BridgeEvent::Stopped => Some(SHUTDOWN_REASON@),
            BridgeEvent::DownstreamClosed => Some("downstream webtransport closed"@),
            _ => None,
        },
{
    match event {
        BridgeEvent::Stopped => BridgeStep {
            close_downstream: Some(SHUTDOWN_REASON),
            close_upstream: Some(SHUTDOWN_REASON),
        },
        BridgeEvent::DownstreamClosed => BridgeStep {
            close_downstream: None,
            close_upstream: Some("downstream webtransport closed"),
        },
        BridgeEvent::UpstreamClosed => BridgeStep {
            close_downstream: Some("upstream webtransport closed"),
            close_upstream: None,
        },
        BridgeEvent::StreamOpened => BridgeStep { close_downstream: None, close_upstream: None },
    }
}

/// Why a stream is not relayed.
#[derive(Clone, Copy, Debug, PartialEq, Eq, Structural)]
pub enum StreamError {
    /// The router stops.
    Cancelled,
    /// The stream did not say in time which session it belongs to.
    HeaderTimedOut,
    /// The stream's header could not be read.
    HeaderUnreadable,
    /// The stream belongs to another session.
    SessionMismatch { got: u64, expected: u64 },
}

/// How waiting for the header of a stream ended.
#[derive(Clone, Copy, Debug, PartialEq, Eq, Structural)]
pub enum HeaderRead {
    Cancelled,
    TimedOut,
    Failed,
    Session(u64),
}

/// What a stream must have said before it is relayed, and whether it is reset if it has not: a
/// stream is left alone only when the router stops.
pub struct HeaderCheck {
    pub result: Result<(), StreamError>,
    pub reset: bool,
}

/// Whether a stream of the worker may be relayed: its header names the worker's session.
pub fn check_stream_header(read: HeaderRead, upstream_session_id: u64) -> (check: HeaderCheck)
    ensures
        check.result == match read {
            HeaderRead::Cancelled => Err::<(), StreamError>(StreamError::Cancelled),
            HeaderRead::TimedOut => Err(StreamError::HeaderTimedOut),
            HeaderRead::Failed => Err(StreamError::HeaderUnreadable),
            HeaderRead::Session(id) => if id == upstream_session_id {
                Ok(())
            } else {
                Err(StreamError::SessionMismatch { got: id, expected: upstream_session_id })
            },
        },
        check.reset == (check.result is Err && !(read is Cancelled)),
{
    match read {
        HeaderRead::Cancelled => HeaderCheck {
            result: Err(StreamError::Cancelled),
            reset: false,
        },
        HeaderRead::TimedOut => HeaderCheck {
            result: Err(StreamError::HeaderTimedOut),
            reset: true,
        },
        HeaderRead::Failed => HeaderCheck {
            result: Err(StreamError::HeaderUnreadable),
            reset: true,
        },
        HeaderRead::Session(id) => {
            if id == upstream_session_id {
                HeaderCheck { result: Ok(()), reset: false }
            } else {
                HeaderCheck {
                    result: Err(
                        StreamError::SessionMismatch { got: id, expected: upstream_session_id },
                    ),
                    reset: true,
                }
            }
        },
    }
}

/// A router serves until it stops or can accept no more: it ends on these two and on nothing else,
/// and closes its endpoint itself exactly where it stops. A connection that comes in is dispatched,
/// and of what is due to be reloaded, that and only that is read again which the router reloads.
pub proof fn routers_serve_until_they_end(
    event: ServeEvent,
    identity: bool,
    trust: bool,
    step: ServeStep,
)
    requires
        call_ensures(serve_step, (event, identity, trust), step),
    ensures
        step is CloseAndExit || step is Exit <==> event is Stopped || event is AcceptEnded,
        step is CloseAndExit <==> event is Stopped,
        step is Dispatch <==> event is Incoming,
        step is Reload <==> event is ReloadDue,
        event is ReloadDue ==> step->identity == identity && step->trust == trust,
{
}

/// A client is given a session exactly where the worker gave one: it is relayed then, and answered
/// the worker's own status otherwise.
pub proof fn clients_get_the_answer_of_the_worker(status: u16, step: ForwardStep)
    requires
        call_ensures(forward_step, (status,), step),
    ensures
        step is AcceptAndBridge <==> 200 <= status <= 299,
        step matches ForwardStep::RejectAndHold { status: answered } ==> answered == status
            && !(200 <= answered <= 299),
{
}

/// The end of one connection ends the other, and only the other: the one that is closed already is
/// not closed again, and both are where the router stops. Relaying goes on while none ended. Each
/// side is told which end it was.
pub proof fn the_end_of_one_connection_ends_the_other(event: BridgeEvent, step: BridgeStep)
    requires
        call_ensures(bridge_step, (event,), step),
    ensures
        step.close_upstream is Some <==> event is Stopped || event is DownstreamClosed,
        step.close_downstream is Some <==> event is Stopped || event is UpstreamClosed,
        event is DownstreamClosed ==> step.close_upstream->0@
            == "downstream webtransport closed"@,
        event is UpstreamClosed ==> step.close_downstream->0@ == "upstream webtransport closed"@,
        event is Stopped ==> step.close_upstream->0@ == "shutdown"@
            && step.close_downstream->0@ == "shutdown"@,
{
}

/// A stream is relayed only where it names the worker's session, whichever that is, and it is reset
/// where it is refused for what it said or failed to say; when the router stops it is left alone.
pub proof fn streams_belong_to_the_session_they_name(
    read: HeaderRead,
    upstream_session_id: u64,
    check: HeaderCheck,
)
    requires
        call_ensures(check_stream_header, (read, upstream_session_id), check),
    ensures
        check.result is Ok <==> read == HeaderRead::Session(upstream_session_id),
        check.reset <==> read is TimedOut || read is Failed || (read is Session && read->Session_0
            != upstream_session_id),
        check.result == Err::<(), StreamError>(StreamError::Cancelled) <==> read is Cancelled,
        check.result == Err::<(), StreamError>(StreamError::HeaderTimedOut) <==> read is TimedOut,
        check.result == Err::<(), StreamError>(StreamError::HeaderUnreadable) <==> read is Failed,
        check.result matches Err(StreamError::SessionMismatch { got, expected }) ==> read
            == HeaderRead::Session(got) && expected == upstream_session_id && got != expected,
{
}

/// Only a CONNECT to the tunnel's own path that names the protocol asks for a session.
pub proof fn only_a_full_request_asks_for_a_session(
    method: &str,
    path: &str,
    tunnel_path: &str,
    names_webtransport: bool,
    valid: bool,
)
    requires
        call_ensures(
            validate_webtransport_connect,
            (method, path, tunnel_path, names_webtransport),
            valid,
        ),
    ensures
        valid ==> method@ == seq!['C', 'O', 'N', 'N', 'E', 'C', 'T'],
        valid ==> path@ == tunnel_path@,
        valid ==> names_webtransport,
        method@ == seq!['C', 'O', 'N', 'N', 'E', 'C', 'T'] && path@ == tunnel_path@
            && names_webtransport ==> valid,
{
    reveal_strlit("CONNECT");
    assert("CONNECT"@ =~= seq!['C', 'O', 'N', 'N', 'E', 'C', 'T']);
}

} // verus!
