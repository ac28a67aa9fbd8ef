//! How a worker opens a reverse tunnel: which addresses it dials, and the steps from the QUIC
//! connection to a tunnel that serves requests.

use super::address::{of_family, ordered_dial_candidates, DialAddress};
use super::protocol::{
    header_value, header_value_text, is_header_value, is_success_status, success_status,
    TunnelTransportProtocol,
};
use super::reverse_state::ReverseTunnelEndpoint;
use crate::bytes::copy_bytes;
use crate::text::{
    copy_optional_text, holds_text, join, joined, joined_text_holds_every_part, optional_text,
    stands_at, texts,
};
use std::sync::Arc;
use vstd::prelude::*;

verus! {

/// What a worker needs to open a reverse tunnel: `F` is how requests are forwarded, and `P` where
/// tokens come from. Both are carried along and not looked into.
#[derive(Clone, Debug)]
pub struct ReverseQuicTunnelConfig<F, P> {
    pub target_addr: String,
    pub inference_server_id: String,
    pub upstream_http_base_url: String,
    pub forwarding: F,
    pub tls_cert_pem: Option<Vec<u8>>,
    pub quic_insecure: bool,
    pub tunnel_protocol: TunnelTransportProtocol,
    pub sni_override: Option<String>,
    pub auth_token_provider: Option<Arc<P>>,
}

impl<F: Default, P> ReverseQuicTunnelConfig<F, P> {
    /// A tunnel over raw QUIC to a server that has to be verified, with the default way of
    /// forwarding and without a token.
    pub fn new(
        target_addr: String,
        inference_server_id: String,
        upstream_http_base_url: String,
    ) -> (config: Self)
        ensures
            config.target_addr == target_addr,
            config.inference_server_id == inference_server_id,
            config.upstream_http_base_url == upstream_http_base_url,
            call_ensures(F::default, (), config.forwarding),
            config.tls_cert_pem is None,
            !config.quic_insecure,
            config.tunnel_protocol == TunnelTransportProtocol::RawQuic,
            config.sni_override is None,
            config.auth_token_provider is None,
    {
        ReverseQuicTunnelConfig {
            target_addr,
            inference_server_id,
            upstream_http_base_url,
            forwarding: F::default(),
            tls_cert_pem: None,
            quic_insecure: false,
            tunnel_protocol: TunnelTransportProtocol::RawQuic,
            sni_override: None,
            auth_token_provider: None,
        }
    }
}

/// What a worker is configured with for every tunnel that it opens.
pub struct RegistrationSessionConfig<F, P> {
    pub inference_server_id: String,
    pub inference_server_url: String,
    pub forwarding: F,
    pub tls_cert_pem: Option<Vec<u8>>,
    pub quic_insecure: bool,
    pub tunnel_protocol: TunnelTransportProtocol,
    pub auth_token_provider: Option<Arc<P>>,
}

/// The bytes of optional material.
pub open spec fn optional_bytes(bytes: Option<Vec<u8>>) -> Option<Seq<u8>> {
    match bytes {
        Some(bytes) => Some(bytes@),
        None => None,
    }
}

/// The tunnel that leads to an announced endpoint: its dial address and its server name, with
/// everything else as configured.
pub fn reverse_quic_tunnel_config<F: Clone, P>(
    endpoint: &ReverseTunnelEndpoint,
    session: &RegistrationSessionConfig<F, P>,
) -> (config: ReverseQuicTunnelConfig<F, P>)
    ensures
        config.target_addr@ == endpoint.pylon_dial_addr@,
        config.inference_server_id@ == session.inference_server_id@,
        config.upstream_http_base_url@ == session.inference_server_url@,
        cloned(session.forwarding, config.forwarding),
        optional_bytes(config.tls_cert_pem) == optional_bytes(session.tls_cert_pem),
        config.quic_insecure == session.quic_insecure,
        config.tunnel_protocol == session.tunnel_protocol,
        optional_text(config.sni_override) == optional_text(endpoint.sni_override),
        config.auth_token_provider == session.auth_token_provider,
{
    ReverseQuicTunnelConfig {
        target_addr: endpoint.pylon_dial_addr.clone(),
        inference_server_id: session.inference_server_id.clone(),
        upstream_http_base_url: session.inference_server_url.clone(),
        forwarding: session.forwarding.clone(),
        tls_cert_pem: match &session.tls_cert_pem {
            Some(pem) => Some(copy_bytes(pem.as_slice())),
            None => None,
        },
        quic_insecure: session.quic_insecure,
        tunnel_protocol: session.tunnel_protocol,
        sni_override: copy_optional_text(&endpoint.sni_override),
        auth_token_provider: match &session.auth_token_provider {
            Some(provider) => Some(provider.clone()),
            None => None,
        },
    }
}

/// The server name to ask for: the one configured, else the one derived from the address.
pub fn reverse_quic_sni<F, P>(
    config: &ReverseQuicTunnelConfig<F, P>,
    derived: String,
) -> (sni: String)
    ensures
        sni@ == match config.sni_override {
            Some(name) => name@,
            None => derived@,
        },
{
    match &config.sni_override {
        Some(name) => name.clone(),
        None => derived,
    }
}

/// Why no reverse tunnel came about.
#[derive(Clone, Debug, PartialEq, Eq)]
pub enum TunnelError {
    /// No TLS configuration could be made.
    Tls,
    /// The address resolved to nothing.
    NoResolvedAddress,
    /// No address could be connected to.
    Connect { context: String },
    /// A step of the handshake failed.
    Handshake { context: String },
    /// The router refused the handshake.
    HandshakeRejected { reason: String },
    /// The router refused the WebTransport session.
    WebTransportConnectRejected { status: u16 },
    /// Connecting took too long.
    ConnectTimeout { timeout_ms: u64 },
}

/// A failed step of the handshake.
pub fn handshake_error(context: &str) -> (error: TunnelError)
    ensures
        error is Handshake,
        error->Handshake_context@ == context@,
{
    TunnelError::Handshake { context: context.to_owned() }
}

/// The addresses to dial, of which there has to be one.
pub fn reverse_quic_dial_candidates(resolved: &Vec<DialAddress>) -> (candidates: Result<
    Vec<DialAddress>,
    TunnelError,
>)
    ensures
        match candidates {
            Ok(dialed) => resolved@.len() > 0 && dialed@ == of_family(resolved@, true) + of_family(
                resolved@,
                false,
            ),
            Err(error) => resolved@.len() == 0 && error is NoResolvedAddress,
        },
{
    let dial_candidates: Vec<DialAddress> = ordered_dial_candidates(resolved);
    if dial_candidates.len() == 0 {
        return Err(TunnelError::NoResolvedAddress);
    }
    Ok(dial_candidates)
}

/// What a series of attempts to dial does next.
pub enum DialStep {
    /// Try this address.
    Dial(DialAddress),
    /// Every address failed, with this to say of them all.
    GiveUp(String),
}

/// An address to dial, and how it is written.
pub struct NamedAddress {
    pub address: DialAddress,
    pub name: String,
}

/// Dials addresses one after the other until one answers.
pub struct DialAttempts {
    candidates: Vec<NamedAddress>,
    errors: Vec<String>,
}

/// What is said of an address that failed: how it is written, and the error.
pub open spec fn failure_text(name: Seq<char>, error: Seq<char>) -> Seq<char> {
    name + ": "@ + error
}

impl DialAttempts {
    /// The addresses, in the order in which they are tried.
    pub closed spec fn candidates(&self) -> Seq<NamedAddress> {
        self.candidates@
    }

    /// The error of each address that failed, in order.
    pub closed spec fn errors(&self) -> Seq<Seq<char>> {
        texts(self.errors@)
    }

    /// What is said of each address that failed, in order.
    pub open spec fn failures(&self) -> Seq<Seq<char>> {
        Seq::new(
            self.errors().len(),
            |i: int| failure_text(self.candidates()[i].name@, self.errors()[i]),
        )
    }

    /// What is said once every address has failed.
    pub open spec fn last_word(&self) -> Seq<char> {
        "failed to connect to every resolved reverse QUIC address: "@ + joined(
            self.failures(),
            "; "@,
        )
    }

    /// No more addresses failed than there are.
    pub open spec fn wf(&self) -> bool {
        self.errors().len() <= self.candidates().len()
    }

    /// Attempts that have not begun.
    pub fn new(candidates: Vec<NamedAddress>) -> (attempts: Self)
        ensures
            attempts.wf(),
            attempts.candidates() == candidates@,
            attempts.errors() == Seq::<Seq<char>>::empty(),
    {
        let attempts = DialAttempts { candidates, errors: Vec::new() };
        assert(attempts.errors() =~= Seq::<Seq<char>>::empty());
        attempts
    }

    /// The address to try next, or what to say once all have failed.
    pub fn next(&self) -> (step: DialStep)
        requires
            self.wf(),
        ensures
            match step {
                DialStep::Dial(address) => self.errors().len() < self.candidates().len() && address
                    == self.candidates()[self.errors().len() as int].address,
                DialStep::GiveUp(message) => self.errors().len() == self.candidates().len()
                    && message@ == self.last_word(),
            },
    {
        if self.errors.len() < self.candidates.len() {
            return DialStep::Dial(self.candidates[self.errors.len()].address);
        }
        let mut failures: Vec<String> = Vec::new();
        let mut at: usize = 0;
        while at < self.errors.len()
            invariant
                at <= self.errors@.len() <= self.candidates@.len(),
                texts(failures@) == self.failures().take(at as int),
            decreases self.errors@.len() - at,
        {
            let mut failure: String = self.candidates[at].name.as_str().to_owned();
            failure.append(": ");
            failure.append(self.errors[at].as_str());
            let ghost before = texts(failures@);
            assert(self.errors()[at as int] == self.errors@[at as int]@);
            assert(failure@ == self.failures()[at as int]);
            let ghost said = failure@;
            failures.push(failure);
            assert(texts(failures@) =~= before.push(said));
            assert(self.failures().take(at + 1) =~= before.push(said));
            at = at + 1;
        }
        assert(self.failures().take(at as int) =~= self.failures());
        let listed: String = join(&failures, "; ");
        let mut message: String =
            "failed to connect to every resolved reverse QUIC address: ".to_owned();
        message.append(listed.as_str());
        DialStep::GiveUp(message)
    }

    /// Records the error of the address tried last.
    pub fn failed(&mut self, error: String)
        requires
            old(self).wf(),
            old(self).errors().len() < old(self).candidates().len(),
        ensures
            final(self).wf(),
            final(self).candidates() == old(self).candidates(),
            final(self).errors() == old(self).errors().push(error@),
    {
        self.errors.push(error);
        assert(self.errors() =~= old(self).errors().push(error@));
    }
}

/// What is said once every address has failed names each of them, with its error.
pub proof fn last_word_names_every_address(attempts: DialAttempts, i: int)
    requires
        attempts.wf(),
        0 <= i < attempts.errors().len(),
    ensures
        holds_text(
            attempts.last_word(),
            failure_text(attempts.candidates()[i].name@, attempts.errors()[i]),
        ),
        holds_text(attempts.last_word(), attempts.candidates()[i].name@),
{
    let intro = "failed to connect to every resolved reverse QUIC address: "@;
    let failures = attempts.failures();
    let failure = failures[i];
    let name = attempts.candidates()[i].name@;
    let listed = joined(failures, "; "@);
    joined_text_holds_every_part(failures, "; "@, i);
    let start = choose|start: int| #[trigger] stands_at(listed, failure, start);
    let message = intro + listed;
    let place = intro.len() + start;
    assert(message.subrange(place, place + failure.len()) =~= failure);
    assert(stands_at(message, failure, place));
    assert(message.subrange(place, place + name.len()) =~= name) by {
        assert(failure.subrange(0, name.len() as int) =~= name);
        assert(message.subrange(place, place + name.len()) =~= message.subrange(
            place,
            place + failure.len(),
        ).subrange(0, name.len() as int));
    }
    assert(stands_at(message, name, place));
}

/// The steps that turn a QUIC connection into a tunnel, in order: `OpenStream` to `ReadAck` over
/// raw QUIC and HTTP/3, `ResolveToken` to `ReceiveResponse` over WebTransport.
#[derive(Clone, Copy, Debug, PartialEq, Eq, Structural)]
pub enum HandshakeStep {
    OpenStream,
    ResolveToken,
    WriteHandshake,
    FinishStream,
    ReadAck,
    CreateH3,
    BuildRequest,
    ValidateToken,
    SendRequest,
    FinishRequest,
    ReceiveResponse,
}

impl HandshakeStep {
    /// What is said when the step fails.
    pub open spec fn failure(self) -> Seq<char> {
        match self {
            HandshakeStep::OpenStream => "opening reverse tunnel handshake stream"@,
            HandshakeStep::ResolveToken => "reading reverse tunnel auth token"@,
            HandshakeStep::WriteHandshake => "writing reverse tunnel handshake"@,
            HandshakeStep::FinishStream => "finishing reverse tunnel handshake stream"@,
            HandshakeStep::ReadAck => "reading reverse tunnel handshake ack"@,
            HandshakeStep::CreateH3 => "creating h3 client"@,
            HandshakeStep::BuildRequest => "building WebTransport CONNECT request"@,
            HandshakeStep::ValidateToken => "validating reverse tunnel auth token header"@,
            HandshakeStep::SendRequest => "sending WebTransport CONNECT request"@,
            HandshakeStep::FinishRequest => "finishing WebTransport CONNECT request"@,
            HandshakeStep::ReceiveResponse => "receiving WebTransport CONNECT response"@,
        }
    }

    /// What is said when the step fails.
    pub fn failure_context(self) -> (context: &'static str)
        ensures
            context@ == self.failure(),
    {
        match self {
            HandshakeStep::OpenStream => "opening reverse tunnel handshake stream",
            HandshakeStep::ResolveToken => "reading reverse tunnel auth token",
            HandshakeStep::WriteHandshake => "writing reverse tunnel handshake",
            HandshakeStep::FinishStream => "finishing reverse tunnel handshake stream",
            HandshakeStep::ReadAck => "reading reverse tunnel handshake ack",
            HandshakeStep::CreateH3 => "creating h3 client",
            HandshakeStep::BuildRequest => "building WebTransport CONNECT request",
            HandshakeStep::ValidateToken => "validating reverse tunnel auth token header",
            HandshakeStep::SendRequest => "sending WebTransport CONNECT request",
            HandshakeStep::FinishRequest => "finishing WebTransport CONNECT request",
            HandshakeStep::ReceiveResponse => "receiving WebTransport CONNECT response",
        }
    }
}

/// How a step ended.
pub enum StepOutcome {
    /// The step did what it is for.
    Done,
    /// The step failed.
    Failed,
    /// The router answered the handshake.
    Ack { accepted: bool, reason: String },
    /// The router answered the request for a session.
    Response { status: u16 },
}

/// What follows a step.
pub enum HandshakeProgress {
    /// This step is next.
    Next(HandshakeStep),
    /// The tunnel serves requests.
    Serve,
    /// There is no tunnel.
    Abort(TunnelError),
}

/// The steps of a handshake, in order.
pub open spec fn handshake_steps(protocol: TunnelTransportProtocol) -> Seq<HandshakeStep> {
    if protocol is WebTransport {
        seq![
            HandshakeStep::ResolveToken,
            HandshakeStep::CreateH3,
            HandshakeStep::BuildRequest,
            HandshakeStep::ValidateToken,
            HandshakeStep::SendRequest,
            HandshakeStep::FinishRequest,
            HandshakeStep::ReceiveResponse,
        ]
    } else {
        seq![
            HandshakeStep::OpenStream,
            HandshakeStep::ResolveToken,
            HandshakeStep::WriteHandshake,
            HandshakeStep::FinishStream,
            HandshakeStep::ReadAck,
        ]
    }
}

/// The steps a connection goes through to become a tunnel. `at` is the number of steps done.
pub struct Handshake {
    protocol: TunnelTransportProtocol,
    at: usize,
}

impl Handshake {
    /// The protocol that the tunnel speaks.
    pub closed spec fn protocol(&self) -> TunnelTransportProtocol {
        self.protocol
    }

    /// The number of steps done.
    pub closed spec fn done(&self) -> int {
        self.at as int
    }

    /// There is a step to do.
    pub open spec fn wf(&self) -> bool {
        0 <= self.done() < handshake_steps(self.protocol()).len()
    }

    /// The step to do.
    pub open spec fn current(&self) -> HandshakeStep {
        handshake_steps(self.protocol())[self.done()]
    }

    /// A handshake of which nothing is done.
    pub fn new(protocol: TunnelTransportProtocol) -> (handshake: Self)
        ensures
            handshake.wf(),
            handshake.protocol() == protocol,
            handshake.done() == 0,
    {
        Handshake { protocol, at: 0 }
    }

    /// The step to do.
    pub fn step(&self) -> (step: HandshakeStep)
        requires
            self.wf(),
        ensures
            step == self.current(),
    {
        match self.protocol {
            TunnelTransportProtocol::WebTransport => match self.at {
                0 => HandshakeStep::ResolveToken,
                1 => HandshakeStep::CreateH3,
                2 => HandshakeStep::BuildRequest,
                3 => HandshakeStep::ValidateToken,
                4 => HandshakeStep::SendRequest,
                5 => HandshakeStep::FinishRequest,
                _ => HandshakeStep::ReceiveResponse,
            },
            _ => match self.at {
                0 => HandshakeStep::OpenStream,
                1 => HandshakeStep::ResolveToken,
                2 => HandshakeStep::WriteHandshake,
                3 => HandshakeStep::FinishStream,
                _ => HandshakeStep::ReadAck,
            },
        }
    }

    /// What follows the step, given how it ended. The last step needs the router's consent; a
    /// step that was answered out of turn counts as failed.
    pub fn advance(&mut self, outcome: StepOutcome) -> (progress: HandshakeProgress)
        requires
            old(self).wf(),
        ensures
            final(self).wf(),
            final(self).protocol() == old(self).protocol(),
            advances(old(self).protocol(), old(self).done(), outcome, progress, final(self).done()),
    {
        let step: HandshakeStep = self.step();
        match outcome {
            StepOutcome::Ack { accepted, reason } => {
                if step != HandshakeStep::ReadAck {
                    HandshakeProgress::Abort(handshake_error(step.failure_context()))
                } else if accepted {
                    HandshakeProgress::Serve
                } else {
                    HandshakeProgress::Abort(TunnelError::HandshakeRejected { reason })
                }
            },
            StepOutcome::Response { status } => {
                if step != HandshakeStep::ReceiveResponse {
                    HandshakeProgress::Abort(handshake_error(step.failure_context()))
                } else if is_success_status(status) {
                    HandshakeProgress::Serve
                } else {
                    HandshakeProgress::Abort(TunnelError::WebTransportConnectRejected { status })
                }
            },
            StepOutcome::Done => {
                if step == HandshakeStep::ReadAck || step == HandshakeStep::ReceiveResponse {
                    HandshakeProgress::Abort(handshake_error(step.failure_context()))
                } else {
                    self.at = self.at + 1;
                    HandshakeProgress::Next(self.step())
                }
            },
            StepOutcome::Failed => HandshakeProgress::Abort(
                handshake_error(step.failure_context()),
            ),
        }
    }
}

/// What comes of a step: consent or refusal where the step asks for it, the next step where it is done,
/// and otherwise a failure that names the step.
pub open spec fn advances(
    protocol: TunnelTransportProtocol,
    at: int,
    outcome: StepOutcome,
    progress: HandshakeProgress,
    after: int,
) -> bool {
    let step = handshake_steps(protocol)[at];
    match (outcome, step) {
        (StepOutcome::Ack { accepted, reason }, HandshakeStep::ReadAck) => {
            &&& after == at
            &&& if accepted {
                progress is Serve
            } else {
                progress == HandshakeProgress::Abort(TunnelError::HandshakeRejected { reason })
            }
        },
        (StepOutcome::Response { status }, HandshakeStep::ReceiveResponse) => {
            &&& after == at
            &&& if success_status(status) {
                progress is Serve
            } else {
                progress == HandshakeProgress::Abort(
                    TunnelError::WebTransportConnectRejected { status },
                )
            }
        },
        (StepOutcome::Done, _) => if step is ReadAck || step is ReceiveResponse {
            failed_with(progress, step) && after == at
        } else {
            &&& after == at + 1
            &&& progress == HandshakeProgress::Next(handshake_steps(protocol)[after])
        },
        _ => failed_with(progress, step) && after == at,
    }
}

/// Whether a handshake ended with the failure of a step.
pub open spec fn failed_with(progress: HandshakeProgress, step: HandshakeStep) -> bool {
    progress matches HandshakeProgress::Abort(error) && error matches TunnelError::Handshake {
        context,
    } && context@ == step.failure()
}

/// The header that carries the token of a worker, if it has one.
pub fn token_header(token: &Option<String>) -> (header: Result<
    Option<http::HeaderValue>,
    TunnelError,
>)
    ensures
        match (header, optional_text(*token)) {
            (Ok(None), None) => true,
            (Ok(Some(value)), Some(text)) => is_header_value(text) && header_value_text(value)
                == text,
            (Err(TunnelError::Handshake { context }), Some(text)) => !is_header_value(text)
                && context@ == HandshakeStep::ValidateToken.failure(),
            _ => false,
        },
{
    match token {
        None => Ok(None),
        Some(text) => match header_value(text.as_str()) {
            Some(value) => Ok(Some(value)),
            None => Err(handshake_error(HandshakeStep::ValidateToken.failure_context())),
        },
    }
}

/// The URI under which a WebTransport session is asked for.
pub fn webtransport_uri(authority: &str, path: &str) -> (uri: String)
    ensures
        uri@ == "https://"@ + authority@ + path@,
{
    let mut uri: String = "https://".to_owned();
    uri.append(authority);
    uri.append(path);
    uri
}

/// Whether a timed attempt to connect ended in time, and what it then came to.
pub fn timed_connect<T>(attempt: Option<Result<T, TunnelError>>, timeout_ms: u64) -> (result:
    Result<T, TunnelError>)
    ensures
        result == match attempt {
            Some(finished) => finished,
            None => Err(TunnelError::ConnectTimeout { timeout_ms }),
        },
{
    match attempt {
        Some(finished) => finished,
        None => Err(TunnelError::ConnectTimeout { timeout_ms }),
    }
}

/// The router's consent is the last step of every handshake and no other, so a tunnel serves
/// only after all steps.
pub proof fn consent_is_the_last_step(protocol: TunnelTransportProtocol, at: int)
    requires
        0 <= at < handshake_steps(protocol).len(),
    ensures
        (handshake_steps(protocol)[at] is ReadAck || handshake_steps(protocol)[at]
            is ReceiveResponse) <==> at == handshake_steps(protocol).len() - 1,
{
}

} // verus!
