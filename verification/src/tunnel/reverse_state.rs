//! The reverse tunnel that a worker keeps open to a router, and the loop that keeps it open.

use crate::text::{
    copy_optional_text, find_char, find_last_char, first_position, last_position, optional_text,
    same_optional_text, same_text, trim, trimmed,
};
use vstd::prelude::*;

verus! {

/// Where a reverse tunnel leads: the address the router is known by, the address to dial, and
/// the server name to ask for where the two differ.
#[derive(Clone, Debug, PartialEq, Eq)]
pub struct ReverseTunnelEndpoint {
    pub routing_target_addr: String,
    pub pylon_dial_addr: String,
    pub sni_override: Option<String>,
}

/// The contents of a `ReverseTunnelEndpoint`.
pub struct EndpointView {
    pub routing_target_addr: Seq<char>,
    pub pylon_dial_addr: Seq<char>,
    pub sni_override: Option<Seq<char>>,
}

impl View for ReverseTunnelEndpoint {
    type V = EndpointView;

    open spec fn view(&self) -> EndpointView {
        EndpointView {
            routing_target_addr: self.routing_target_addr@,
            pylon_dial_addr: self.pylon_dial_addr@,
            sni_override: optional_text(self.sni_override),
        }
    }
}

impl ReverseTunnelEndpoint {
    /// A copy of this endpoint.
    pub fn duplicate(&self) -> (copy: Self)
        ensures
            copy@ == self@,
    {
        ReverseTunnelEndpoint {
            routing_target_addr: self.routing_target_addr.clone(),
            pylon_dial_addr: self.pylon_dial_addr.clone(),
            sni_override: copy_optional_text(&self.sni_override),
        }
    }

    /// Whether two endpoints are the same.
    pub fn same_as(&self, other: &Self) -> (same: bool)
        ensures
            same == (self@ == other@),
    {
        self.routing_target_addr == other.routing_target_addr && self.pylon_dial_addr
            == other.pylon_dial_addr && same_optional_text(&self.sni_override, &other.sni_override)
    }
}

/// The state of a reverse tunnel.
#[derive(Clone, Debug, PartialEq, Eq)]
pub enum ReverseTunnelState {
    AwaitingEndpoint,
    Disconnected(ReverseTunnelEndpoint),
    Connected(ReverseTunnelEndpoint),
}

/// The contents of a `ReverseTunnelState`.
pub enum TunnelView {
    AwaitingEndpoint,
    Disconnected(EndpointView),
    Connected(EndpointView),
}

impl View for ReverseTunnelState {
    type V = TunnelView;

    open spec fn view(&self) -> TunnelView {
        match self {
            ReverseTunnelState::AwaitingEndpoint => TunnelView::AwaitingEndpoint,
            ReverseTunnelState::Disconnected(endpoint) => TunnelView::Disconnected(endpoint@),
            ReverseTunnelState::Connected(endpoint) => TunnelView::Connected(endpoint@),
        }
    }
}

impl Default for ReverseTunnelState {
    fn default() -> (state: Self)
        ensures
            state@ is AwaitingEndpoint,
    {
        ReverseTunnelState::AwaitingEndpoint
    }
}

impl TunnelView {
    /// The endpoint that is known, if any.
    pub open spec fn endpoint(self) -> Option<EndpointView> {
        match self {
            TunnelView::AwaitingEndpoint => None,
            TunnelView::Disconnected(endpoint) => Some(endpoint),
            TunnelView::Connected(endpoint) => Some(endpoint),
        }
    }

    /// The state once `endpoint` is the one announced: another endpoint ends a connection.
    pub open spec fn with_endpoint(self, endpoint: Option<EndpointView>) -> TunnelView {
        if self.endpoint() == endpoint {
            self
        } else {
            match endpoint {
                Some(endpoint) => TunnelView::Disconnected(endpoint),
                None => TunnelView::AwaitingEndpoint,
            }
        }
    }

    /// The state once a connection to `endpoint` is there, if that is still the endpoint wanted.
    pub open spec fn connected_to(self, endpoint: EndpointView) -> TunnelView {
        if self == TunnelView::Disconnected(endpoint) {
            TunnelView::Connected(endpoint)
        } else {
            self
        }
    }

    /// The state once a connection to `endpoint` is gone.
    pub open spec fn disconnected_from(self, endpoint: EndpointView) -> TunnelView {
        if self == TunnelView::Connected(endpoint) {
            TunnelView::Disconnected(endpoint)
        } else {
            self
        }
    }
}

/// The contents of an optional endpoint.
pub open spec fn optional_endpoint(endpoint: Option<ReverseTunnelEndpoint>) -> Option<
    EndpointView,
> {
    match endpoint {
        Some(endpoint) => Some(endpoint@),
        None => None,
    }
}

impl ReverseTunnelState {
    /// The endpoint that is known, if any.
    pub fn endpoint(&self) -> (endpoint: Option<&ReverseTunnelEndpoint>)
        ensures
            match (endpoint, self@.endpoint()) {
                (Some(known), Some(expected)) => known@ == expected,
                (None, None) => true,
                _ => false,
            },
    {
        match self {
            ReverseTunnelState::AwaitingEndpoint => None,
            ReverseTunnelState::Disconnected(endpoint) => Some(endpoint),
            ReverseTunnelState::Connected(endpoint) => Some(endpoint),
        }
    }

    /// Whether the tunnel is connected.
    pub fn is_connected(&self) -> (connected: bool)
        ensures
            connected == (self@ is Connected),
    {
        match self {
            ReverseTunnelState::Connected(_) => true,
            _ => false,
        }
    }

    /// Whether the tunnel is connected to `endpoint`.
    pub fn is_connected_to(&self, endpoint: &ReverseTunnelEndpoint) -> (connected: bool)
        ensures
            connected == (self@ == TunnelView::Connected(endpoint@)),
    {
        match self {
            ReverseTunnelState::Connected(current) => current.same_as(endpoint),
            _ => false,
        }
    }

    /// Takes over an announced endpoint. Says whether anything changed.
    pub fn replace_endpoint(&mut self, endpoint: Option<ReverseTunnelEndpoint>) -> (changed: bool)
        ensures
            final(self)@ == old(self)@.with_endpoint(optional_endpoint(endpoint)),
            changed == (old(self)@.endpoint() != optional_endpoint(endpoint)),
    {
        let same: bool = match (self.endpoint(), &endpoint) {
            (Some(current), Some(announced)) => current.same_as(announced),
            (None, None) => true,
            _ => false,
        };
        if same {
            return false;
        }
        *self = match endpoint {
            Some(endpoint) => ReverseTunnelState::Disconnected(endpoint),
            None => ReverseTunnelState::AwaitingEndpoint,
        };
        true
    }

    /// Records a connection to `endpoint`, if that is still the endpoint wanted. Says whether it
    /// was.
    pub fn mark_connected(&mut self, endpoint: &ReverseTunnelEndpoint) -> (changed: bool)
        ensures
            final(self)@ == old(self)@.connected_to(endpoint@),
            changed == (old(self)@ == TunnelView::Disconnected(endpoint@)),
    {
        let wanted: bool = match &*self {
            ReverseTunnelState::Disconnected(current) => current.same_as(endpoint),
            _ => false,
        };
        if wanted {
            *self = ReverseTunnelState::Connected(endpoint.duplicate());
        }
        wanted
    }

    /// Records that the connection to `endpoint` is gone. Says whether it was the connection
    /// recorded.
    pub fn mark_disconnected(&mut self, endpoint: &ReverseTunnelEndpoint) -> (changed: bool)
        ensures
            final(self)@ == old(self)@.disconnected_from(endpoint@),
            changed == (old(self)@ == TunnelView::Connected(endpoint@)),
    {
        let recorded: bool = self.is_connected_to(endpoint);
        if recorded {
            *self = ReverseTunnelState::Disconnected(endpoint.duplicate());
        }
        recorded
    }
}

/// An announced endpoint is known from then on, and a connection survives only the announcement
/// of the endpoint it leads to.
pub proof fn announced_endpoint_is_known(state: TunnelView, endpoint: Option<EndpointView>)
    ensures
        state.with_endpoint(endpoint).endpoint() == endpoint,
        state.with_endpoint(endpoint) is Connected ==> state == state.with_endpoint(endpoint),
        state.with_endpoint(endpoint).with_endpoint(endpoint) == state.with_endpoint(endpoint),
{
}

/// Losing a connection undoes making it, and neither touches a state of another endpoint.
pub proof fn disconnecting_undoes_connecting(state: TunnelView, endpoint: EndpointView)
    ensures
        state == TunnelView::Disconnected(endpoint) ==> state.connected_to(
            endpoint,
        ).disconnected_from(endpoint) == state,
        state.endpoint() != Some(endpoint) ==> state.connected_to(endpoint) == state
            && state.disconnected_from(endpoint) == state,
        state.connected_to(endpoint).endpoint() == state.endpoint(),
        state.disconnected_from(endpoint).endpoint() == state.endpoint(),
{
}

/// The host part of a routing target: what stands in square brackets at its start, else what
/// stands before the last colon, else all of it.
pub open spec fn target_host(target: Seq<char>) -> Seq<char> {
    let closing = first_position(target, ']', 1);
    let colon = last_position(target, ':', target.len() as int);
    if target.len() > 0 && target[0] == '[' && closing < target.len() {
        target.subrange(1, closing)
    } else if colon >= 0 {
        target.subrange(0, colon)
    } else {
        target
    }
}

/// The host part of a routing target.
pub fn routing_target_host(target: &str) -> (host: &str)
    ensures
        host@ == target_host(target@),
{
    let length: usize = target.unicode_len();
    if length > 0 && target.get_char(0) == '[' {
        let closing: usize = find_char(target, ']', 1);
        if closing < length {
            return target.substring_char(1, closing);
        }
    }
    match find_last_char(target, ':') {
        Some(colon) => target.substring_char(0, colon),
        None => target,
    }
}

/// The server name under which a routing target is asked for: its host, or `stargate` where the
/// host is `localhost` or an IP address, which name no server.
pub open spec fn target_sni(target: Seq<char>, host_is_ip: bool) -> Seq<char> {
    if target_host(target) == "localhost"@ || host_is_ip {
        "stargate"@
    } else {
        target_host(target)
    }
}

/// The server name under which a routing target is asked for. `host_is_ip` says whether its
/// host, as `routing_target_host` gives it, is an IP address.
pub fn reverse_tunnel_sni_from_routing_target(target: &str, host_is_ip: bool) -> (sni: String)
    ensures
        sni@ == target_sni(target@, host_is_ip),
{
    let host: &str = routing_target_host(target);
    if host_is_ip || same_text(host, "localhost") {
        "stargate".to_owned()
    } else {
        host.to_owned()
    }
}

/// The endpoint that a router's acknowledgement announces.
pub open spec fn announced_endpoint(
    target: Seq<char>,
    dial_addr: Seq<char>,
    host_is_ip: bool,
) -> Option<EndpointView> {
    if trimmed(target).len() == 0 || trimmed(dial_addr).len() == 0 {
        None
    } else {
        Some(
            EndpointView {
                routing_target_addr: trimmed(target),
                pylon_dial_addr: trimmed(dial_addr),
                sni_override: if trimmed(dial_addr) == trimmed(target) {
                    None
                } else {
                    Some(target_sni(trimmed(target), host_is_ip))
                },
            },
        )
    }
}

/// The endpoint that a router's acknowledgement announces: nothing where one of its two
/// addresses is blank. `host_is_ip` says whether the host of the trimmed target, as
/// `routing_target_host` gives it, is an IP address.
pub fn reverse_tunnel_endpoint_from_ack(
    reverse_tunnel_target: &str,
    reverse_tunnel_pylon_dial_addr: &str,
    host_is_ip: bool,
) -> (endpoint: Option<ReverseTunnelEndpoint>)
    ensures
        optional_endpoint(endpoint) == announced_endpoint(
            reverse_tunnel_target@,
            reverse_tunnel_pylon_dial_addr@,
            host_is_ip,
        ),
{
    let routing_target_addr: &str = trim(reverse_tunnel_target);
    let pylon_dial_addr: &str = trim(reverse_tunnel_pylon_dial_addr);
    if routing_target_addr.is_empty() || pylon_dial_addr.is_empty() {
        return None;
    }
    let sni_override: Option<String> = if same_text(pylon_dial_addr, routing_target_addr) {
        None
    } else {
        Some(reverse_tunnel_sni_from_routing_target(routing_target_addr, host_is_ip))
    };
    Some(
        ReverseTunnelEndpoint {
            routing_target_addr: routing_target_addr.to_owned(),
            pylon_dial_addr: pylon_dial_addr.to_owned(),
            sni_override,
        },
    )
}

/// Milliseconds to wait before the first retry.
pub const INITIAL_BACKOFF_MILLIS: u64 = 1_000;

/// Milliseconds to wait at most before a retry.
pub const MAX_BACKOFF_MILLIS: u64 = 30_000;

/// A connection that lasted longer than this starts over with the shortest wait.
pub const STABLE_CONNECTION_NANOS: u64 = 60_000_000_000;

/// The wait that follows a wait: twice as long, up to the longest.
pub open spec fn next_backoff(backoff: int) -> int {
    if 2 * backoff <= MAX_BACKOFF_MILLIS {
        2 * backoff
    } else {
        MAX_BACKOFF_MILLIS as int
    }
}

/// The wait before retry `retry`, counted from 0, if nothing interrupts the retries.
pub open spec fn backoff_before_retry(retry: nat) -> int
    decreases retry,
{
    if retry == 0 {
        INITIAL_BACKOFF_MILLIS as int
    } else {
        next_backoff(backoff_before_retry((retry - 1) as nat))
    }
}

/// The waits before uninterrupted retries are 1, 2, 4, 8, 16 seconds, and 30 seconds from then
/// on.
pub proof fn waits_double_up_to_thirty_seconds(retry: nat)
    ensures
        retry == 0 ==> backoff_before_retry(retry) == 1_000,
        retry == 1 ==> backoff_before_retry(retry) == 2_000,
        retry == 2 ==> backoff_before_retry(retry) == 4_000,
        retry == 3 ==> backoff_before_retry(retry) == 8_000,
        retry == 4 ==> backoff_before_retry(retry) == 16_000,
        retry >= 5 ==> backoff_before_retry(retry) == 30_000,
    decreases retry,
{
    reveal_with_fuel(backoff_before_retry, 2);
    if retry > 0 {
        waits_double_up_to_thirty_seconds((retry - 1) as nat);
    }
}

/// What the loop does at its start.
pub enum BeginStep {
    /// The loop ends.
    Exit,
    /// Wait until the state changes.
    AwaitChange,
    /// Try to connect to this endpoint.
    Connect(ReverseTunnelEndpoint),
}

/// How a wait for a change of the state ended.
#[derive(Clone, Copy, Debug, PartialEq, Eq, Structural)]
pub enum AwaitOutcome {
    Stopped,
    ChannelClosed,
    StateChanged,
}

/// How an attempt to connect ended.
pub enum ConnectOutcome {
    Stopped,
    ChannelClosed,
    StateChanged,
    /// A tunnel is open. `marked` is what `mark_connected` said of the shared state, `seen` the
    /// state that was read after that.
    Connected { marked: bool, seen: ReverseTunnelState },
    Failed,
}

/// What the loop does after an attempt to connect.
#[derive(Clone, Copy, Debug, PartialEq, Eq, Structural)]
pub enum ConnectStep {
    /// The loop ends.
    Exit,
    /// The loop starts over.
    Restart,
    /// The tunnel is shut down, and the loop starts over.
    ShutDownAndRestart,
    /// The tunnel is kept until something happens.
    Hold,
    /// Wait this long, then retry.
    Wait { millis: u64 },
}

/// Why a tunnel was held no longer.
pub enum HoldOutcome {
    Stopped,
    ChannelClosed,
    StateChanged,
    /// The tunnel closed by itself. `disconnected` is what `mark_disconnected` said of the
    /// shared state, `seen` the endpoint that was read after that, and `connected_nanos` how
    /// long the tunnel was open.
    Dropped { disconnected: bool, seen: Option<ReverseTunnelEndpoint>, connected_nanos: u64 },
}

/// What the loop does after a tunnel.
#[derive(Clone, Copy, Debug, PartialEq, Eq, Structural)]
pub enum HoldStep {
    /// The tunnel is shut down, and the loop ends. `mark` says whether the shared state is
    /// marked as disconnected in between.
    ShutDownAndExit { mark: bool },
    /// The tunnel is shut down, the shared state is marked as disconnected, and the loop starts
    /// over.
    ShutDownMarkAndRestart,
    /// The loop starts over.
    Restart,
    /// Wait this long, then retry.
    Wait { millis: u64 },
}

/// How a wait before a retry ended.
#[derive(Clone, Copy, Debug, PartialEq, Eq, Structural)]
pub enum RetryOutcome {
    Stopped,
    ChannelClosed,
    StateChanged,
    Elapsed,
}

/// What is done about an attempt to connect, and how long the wait before the next attempt is then.
pub open spec fn answers_connecting(
    endpoint: EndpointView,
    backoff: int,
    outcome: ConnectOutcome,
    step: ConnectStep,
    after: int,
) -> bool {
    &&& match outcome {
        ConnectOutcome::Stopped => step == ConnectStep::Exit,
        ConnectOutcome::ChannelClosed => step == ConnectStep::Exit,
        ConnectOutcome::StateChanged => step == ConnectStep::Restart,
        ConnectOutcome::Connected { marked, seen } => step == if marked && seen@
            == TunnelView::Connected(endpoint) {
            ConnectStep::Hold
        } else {
            ConnectStep::ShutDownAndRestart
        },
        ConnectOutcome::Failed => step == (ConnectStep::Wait { millis: backoff as u64 }),
    }
    &&& after == match step {
        ConnectStep::Restart => INITIAL_BACKOFF_MILLIS as int,
        ConnectStep::ShutDownAndRestart => INITIAL_BACKOFF_MILLIS as int,
        _ => backoff,
    }
}

/// What is done when a tunnel is held no more, and how long the wait before the next attempt is then.
pub open spec fn answers_holding(
    endpoint: EndpointView,
    backoff: int,
    outcome: HoldOutcome,
    step: HoldStep,
    after: int,
) -> bool {
    match outcome {
        HoldOutcome::Stopped => step == (HoldStep::ShutDownAndExit { mark: true }) && after
            == backoff,
        HoldOutcome::ChannelClosed => step == (HoldStep::ShutDownAndExit { mark: false }) && after
            == backoff,
        HoldOutcome::StateChanged => step == HoldStep::ShutDownMarkAndRestart && after
            == INITIAL_BACKOFF_MILLIS,
        HoldOutcome::Dropped { disconnected, seen, connected_nanos } => {
            if disconnected && optional_endpoint(seen) != Some(endpoint) {
                step == HoldStep::Restart && after == INITIAL_BACKOFF_MILLIS
            } else {
                &&& after == if connected_nanos > STABLE_CONNECTION_NANOS {
                    INITIAL_BACKOFF_MILLIS as int
                } else {
                    backoff
                }
                &&& step == (HoldStep::Wait { millis: after as u64 })
            }
        },
    }
}

/// Whether the loop goes on after a wait, and how long the next wait is then.
pub open spec fn answers_waiting(
    backoff: int,
    outcome: RetryOutcome,
    goes_on: bool,
    after: int,
) -> bool {
    &&& goes_on == (outcome is StateChanged || outcome is Elapsed)
    &&& after == match outcome {
        RetryOutcome::StateChanged => INITIAL_BACKOFF_MILLIS as int,
        RetryOutcome::Elapsed => next_backoff(backoff),
        _ => backoff,
    }
}

/// Keeps one reverse tunnel open: connects when an endpoint is known, gives up a tunnel when the
/// endpoint changes, and retries with growing waits.
pub struct ReverseTunnelLoop {
    backoff_millis: u64,
}

impl ReverseTunnelLoop {
    /// The wait before the next retry, in milliseconds.
    pub closed spec fn backoff(&self) -> int {
        self.backoff_millis as int
    }

    /// The wait is never shorter than the first nor longer than the longest.
    pub open spec fn wf(&self) -> bool {
        INITIAL_BACKOFF_MILLIS <= self.backoff() <= MAX_BACKOFF_MILLIS
    }

    /// A loop that has not retried yet.
    pub fn new() -> (tunnel: Self)
        ensures
            tunnel.wf(),
            tunnel.backoff() == INITIAL_BACKOFF_MILLIS,
    {
        ReverseTunnelLoop { backoff_millis: INITIAL_BACKOFF_MILLIS }
    }

    /// What to do at the start of a round, given the state of the tunnel.
    pub fn begin(&self, stopped: bool, state: &ReverseTunnelState) -> (step: BeginStep)
        ensures
            match (step, state@.endpoint()) {
                (BeginStep::Exit, _) => stopped,
                (BeginStep::AwaitChange, None) => !stopped,
                (BeginStep::Connect(endpoint), Some(known)) => !stopped && endpoint@ == known,
                _ => false,
            },
    {
        if stopped {
            return BeginStep::Exit;
        }
        match state.endpoint() {
            None => BeginStep::AwaitChange,
            Some(endpoint) => BeginStep::Connect(endpoint.duplicate()),
        }
    }

    /// Whether the loop goes on after waiting for an endpoint.
    pub fn after_await(&self, outcome: AwaitOutcome) -> (goes_on: bool)
        ensures
            goes_on == (outcome is StateChanged),
    {
        match outcome {
            AwaitOutcome::StateChanged => true,
            _ => false,
        }
    }

    /// What to do after an attempt to connect to `endpoint`. A tunnel is held only if the shared
    /// state took it over and still wants this endpoint.
    pub fn after_connect(
        &mut self,
        endpoint: &ReverseTunnelEndpoint,
        outcome: ConnectOutcome,
    ) -> (step: ConnectStep)
        requires
            old(self).wf(),
        ensures
            final(self).wf(),
            answers_connecting(
                endpoint@,
                old(self).backoff(),
                outcome,
                step,
                final(self).backoff(),
            ),
    {
        match outcome {
            ConnectOutcome::Stopped => ConnectStep::Exit,
            ConnectOutcome::ChannelClosed => ConnectStep::Exit,
            ConnectOutcome::StateChanged => {
                self.backoff_millis = INITIAL_BACKOFF_MILLIS;
                ConnectStep::Restart
            },
            ConnectOutcome::Connected { marked, seen } => {
                if marked && seen.is_connected_to(endpoint) {
                    ConnectStep::Hold
                } else {
                    self.backoff_millis = INITIAL_BACKOFF_MILLIS;
                    ConnectStep::ShutDownAndRestart
                }
            },
            ConnectOutcome::Failed => ConnectStep::Wait { millis: self.backoff_millis },
        }
    }

    /// What to do after a tunnel to `endpoint`.
    pub fn after_hold(
        &mut self,
        endpoint: &ReverseTunnelEndpoint,
        outcome: HoldOutcome,
    ) -> (step: HoldStep)
        requires
            old(self).wf(),
        ensures
            final(self).wf(),
            answers_holding(
                endpoint@,
                old(self).backoff(),
                outcome,
                step,
                final(self).backoff(),
            ),
    {
        match outcome {
            HoldOutcome::Stopped => HoldStep::ShutDownAndExit { mark: true },
            HoldOutcome::ChannelClosed => HoldStep::ShutDownAndExit { mark: false },
            HoldOutcome::StateChanged => {
                self.backoff_millis = INITIAL_BACKOFF_MILLIS;
                HoldStep::ShutDownMarkAndRestart
            },
            HoldOutcome::Dropped { disconnected, seen, connected_nanos } => {
                let wanted: bool = match &seen {
                    Some(current) => current.same_as(endpoint),
                    None => false,
                };
                if disconnected && !wanted {
                    self.backoff_millis = INITIAL_BACKOFF_MILLIS;
                    return HoldStep::Restart;
                }
                if connected_nanos > STABLE_CONNECTION_NANOS {
                    self.backoff_millis = INITIAL_BACKOFF_MILLIS;
                }
                HoldStep::Wait { millis: self.backoff_millis }
            },
        }
    }

    /// Whether the loop goes on after a wait. A wait that ran its course makes the next one
    /// longer; a change of the state makes it short again.
    pub fn after_retry_wait(&mut self, outcome: RetryOutcome) -> (goes_on: bool)
        requires
            old(self).wf(),
        ensures
            final(self).wf(),
            answers_waiting(old(self).backoff(), outcome, goes_on, final(self).backoff()),
    {
        match outcome {
            RetryOutcome::Stopped => false,
            RetryOutcome::ChannelClosed => false,
            RetryOutcome::StateChanged => {
                self.backoff_millis = INITIAL_BACKOFF_MILLIS;
                true
            },
            RetryOutcome::Elapsed => {
                let doubled: u64 = self.backoff_millis * 2;
                self.backoff_millis = if doubled <= MAX_BACKOFF_MILLIS {
                    doubled
                } else {
                    MAX_BACKOFF_MILLIS
                };
                true
            },
        }
    }
}

} // verus!
