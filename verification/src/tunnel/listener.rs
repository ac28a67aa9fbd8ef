//! What a router does with connections of reverse tunnels, and how it reaches workers directly.

use super::address::DialAddress;
use super::connect::handshake_steps;
use super::protocol::{
    header_value, header_value_text, is_header_value, is_success_status, success_status,
    TunnelTransportProtocol,
};
use crate::text::{optional_text, same_text};
use vstd::prelude::*;

verus! {

/// The reason given to connections when the router stops.
pub const SHUTDOWN_REASON: &'static str = "shutdown";

/// What a listener waits for.
#[derive(Clone, Copy, Debug, PartialEq, Eq, Structural)]
pub enum ListenerEvent {
    /// The router stops.
    Stopped,
    /// The endpoint accepts no more connections.
    AcceptEnded,
    /// A connection comes in.
    Incoming,
}

/// What a listener does next.
#[derive(Clone, Copy, Debug, PartialEq, Eq, Structural)]
pub enum ListenerStep {
    /// The endpoint is closed, and the listener ends.
    CloseAndExit,
    /// The connection is dispatched, and the listener goes on.
    Dispatch,
}

/// What a listener of reverse tunnels does next.
pub fn listener_step(event: ListenerEvent) -> (step: ListenerStep)
    ensures
        step == if event is Incoming {
            ListenerStep::Dispatch
        } else {
            ListenerStep::CloseAndExit
        },
{
    match event {
        ListenerEvent::Incoming => ListenerStep::Dispatch,
        _ => ListenerStep::CloseAndExit,
    }
}

/// What a resolver of peers says of a server name.
#[derive(Clone, Copy, Debug, PartialEq, Eq, Structural)]
pub enum PeerResolution {
    /// Another router.
    Peer,
    /// This router.
    Local,
    /// No router.
    NotPeer,
}

/// Where a connection of a reverse tunnel goes.
#[derive(Clone, Copy, Debug, PartialEq, Eq, Structural)]
pub enum Dispatch {
    /// It is relayed to the peer.
    Relay,
    /// It asks for a WebTransport session.
    WebTransportConnect,
    /// It begins with a handshake.
    Handshake,
}

/// Whether the peer that a connection asks for has to be resolved: there is a resolver, and the
/// connection names a server.
pub fn needs_peer_resolution(has_resolver: bool, server_name: &Option<String>) -> (needed: bool)
    ensures
        needed == (has_resolver && server_name is Some),
{
    has_resolver && server_name.is_some()
}

/// Where a connection goes, given what was resolved, if anything was.
pub open spec fn dispatched(
    resolution: Option<PeerResolution>,
    protocol: TunnelTransportProtocol,
) -> Dispatch {
    if resolution == Some(PeerResolution::Peer) {
        Dispatch::Relay
    } else if protocol is WebTransport {
        Dispatch::WebTransportConnect
    } else {
        Dispatch::Handshake
    }
}

/// Where a connection goes: to the peer it asks for, else to this router, in the way of the
/// protocol.
pub fn dispatch_connection(
    resolution: Option<PeerResolution>,
    protocol: TunnelTransportProtocol,
) -> (dispatch: Dispatch)
    ensures
        dispatch == dispatched(resolution, protocol),
{
    let relayed: bool = match resolution {
        Some(PeerResolution::Peer) => true,
        _ => false,
    };
    if relayed {
        return Dispatch::Relay;
    }
    match protocol {
        TunnelTransportProtocol::WebTransport => Dispatch::WebTransportConnect,
        _ => Dispatch::Handshake,
    }
}

/// How an accepted reverse connection becomes one that requests can use.
#[derive(Clone, Copy, Debug, PartialEq, Eq, Structural)]
pub enum InstallStep {
    /// The registration takes no connection any more.
    Refuse,
    /// The connection is used as it is.
    InstallRaw,
    /// An HTTP/3 client is built on it first.
    BuildH3,
    /// WebTransport connections are installed by their own handshake.
    RefuseWebTransport,
}

/// How an accepted reverse connection becomes one that requests can use.
pub fn reverse_install_step(registration_open: bool, protocol: TunnelTransportProtocol) -> (step:
    InstallStep)
    ensures
        step == if !registration_open {
            InstallStep::Refuse
        } else {
            match protocol {
                TunnelTransportProtocol::RawQuic => InstallStep::InstallRaw,
                TunnelTransportProtocol::Http3 => InstallStep::BuildH3,
                TunnelTransportProtocol::WebTransport => InstallStep::RefuseWebTransport,
            }
        },
{
    if !registration_open {
        return InstallStep::Refuse;
    }
    match protocol {
        TunnelTransportProtocol::RawQuic => InstallStep::InstallRaw,
        TunnelTransportProtocol::Http3 => InstallStep::BuildH3,
        TunnelTransportProtocol::WebTransport => InstallStep::RefuseWebTransport,
    }
}

/// Why a worker cannot be reached directly.
#[derive(Clone, Copy, Debug, PartialEq, Eq, Structural)]
pub enum DirectError {
    /// No connection at all was configured.
    NoConnections,
    /// The worker is to be reached by a reverse tunnel.
    ReverseTunnel,
    /// The registration ended meanwhile.
    RegistrationEnded,
    /// The URL cannot be parsed.
    InvalidUrl,
    /// The URL has another scheme than `quic`.
    NotQuic,
    /// The URL has no port.
    MissingPort,
    /// The host of the URL is not an IP address.
    HostNotIp,
    /// No connection was ever made for the registration.
    NotConnected,
    /// All connections are closed.
    ConnectionClosed,
    /// The request id of the health check cannot be a header value.
    InvalidRequestId,
    /// The worker answered its health check with this status.
    Unhealthy { status: u16 },
}

/// Refuses to work with no connection at all.
pub fn check_connection_count(direct_quic_connections: usize) -> (checked: Result<(), DirectError>)
    ensures
        checked == if direct_quic_connections > 0 {
            Ok::<(), DirectError>(())
        } else {
            Err(DirectError::NoConnections)
        },
{
    if direct_quic_connections > 0 {
        Ok(())
    } else {
        Err(DirectError::NoConnections)
    }
}

/// Whether a registration may be connected to directly before the attempt: it has no reverse
/// tunnel, and has not ended.
pub fn check_direct_registration(reverse_tunnel: bool, active: bool) -> (checked: Result<
    (),
    DirectError,
>)
    ensures
        checked == if reverse_tunnel {
            Err::<(), DirectError>(DirectError::ReverseTunnel)
        } else if !active {
            Err(DirectError::RegistrationEnded)
        } else {
            Ok(())
        },
{
    if reverse_tunnel {
        Err(DirectError::ReverseTunnel)
    } else if !active {
        Err(DirectError::RegistrationEnded)
    } else {
        Ok(())
    }
}

/// The parts of a URL: scheme, port and host.
pub struct UrlParts {
    pub scheme: String,
    pub port: Option<u16>,
    pub host: Option<String>,
}

/// The contents of `UrlParts`.
pub open spec fn url_parts_view(parts: UrlParts) -> (Seq<char>, Option<u16>, Option<Seq<char>>) {
    (parts.scheme@, parts.port, optional_text(parts.host))
}

/// Scheme, port (the known default of the scheme where none is written) and host of a URL text,
/// or `None` where it is no URL.
pub uninterp spec fn url_parts(text: Seq<char>) -> Option<
    (Seq<char>, Option<u16>, Option<Seq<char>>),
>;

/// Parses a URL with `url::Url::parse` and takes its scheme, its port or the known default, and
/// its host text. They depend on the text alone.
#[verifier::external_body]
fn parse_url(text: &str) -> (parts: Option<UrlParts>)
    ensures
        match (parts, url_parts(text@)) {
            (Some(parsed), Some(expected)) => url_parts_view(parsed) == expected,
            (None, None) => true,
            _ => false,
        },
{
    url::Url::parse(text).ok().map(|parsed| UrlParts {
        scheme: parsed.scheme().to_owned(),
        port: parsed.port_or_known_default(),
        host: parsed.host_str().map(|host| host.to_owned()),
    })
}

/// The host and port that a QUIC URL leads to.
pub struct QuicTarget {
    pub host: String,
    pub port: u16,
}

/// The host and port of a URL that was taken apart, or what is wrong with it.
pub open spec fn quic_target_of(parts: Option<(Seq<char>, Option<u16>, Option<Seq<char>>)>) -> Result<
    (Seq<char>, u16),
    DirectError,
> {
    match parts {
        None => Err(DirectError::InvalidUrl),
        Some((scheme, port, host)) => if scheme != "quic"@ {
            Err(DirectError::NotQuic)
        } else {
            match (port, host) {
                (None, _) => Err(DirectError::MissingPort),
                (Some(_), None) => Err(DirectError::HostNotIp),
                (Some(port), Some(host)) => Ok((host, port)),
            }
        },
    }
}

/// Whether a target was found as specified.
pub open spec fn same_quic_target(
    target: Result<QuicTarget, DirectError>,
    expected: Result<(Seq<char>, u16), DirectError>,
) -> bool {
    match (target, expected) {
        (Ok(found), Ok((host, port))) => found.host@ == host && found.port == port,
        (Err(error), Err(reason)) => error == reason,
        _ => false,
    }
}

/// The host and port of a URL that was taken apart. The scheme has to be `quic`, and port and host
/// have to be there.
pub fn quic_target(parts: Option<UrlParts>) -> (target: Result<QuicTarget, DirectError>)
    ensures
        same_quic_target(
            target,
            quic_target_of(
                match parts {
                    Some(parts) => Some(url_parts_view(parts)),
                    None => None,
                },
            ),
        ),
{
    match parts {
        None => Err(DirectError::InvalidUrl),
        Some(parts) => {
            if !same_text(parts.scheme.as_str(), "quic") {
                return Err(DirectError::NotQuic);
            }
            match (parts.port, parts.host) {
                (None, _) => Err(DirectError::MissingPort),
                (Some(_), None) => Err(DirectError::HostNotIp),
                (Some(port), Some(host)) => Ok(QuicTarget { host, port }),
            }
        },
    }
}

/// The host and port that a QUIC URL leads to.
pub fn parse_quic_target(target_url: &str) -> (target: Result<QuicTarget, DirectError>)
    ensures
        same_quic_target(target, quic_target_of(url_parts(target_url@))),
{
    quic_target(parse_url(target_url))
}

/// An IP address.
#[derive(Clone, Copy, Debug, PartialEq, Eq, Structural)]
pub enum IpAddress {
    V4(u32),
    V6(u128),
}

impl QuicTarget {
    /// The address to dial, given what IP address the host spells, which has to be one.
    pub fn address(&self, ip: Option<IpAddress>) -> (address: Result<DialAddress, DirectError>)
        ensures
            address == match ip {
                Some(IpAddress::V4(ip)) => Ok::<DialAddress, DirectError>(
                    DialAddress::V4 { ipv4: ip, port: self.port },
                ),
                Some(IpAddress::V6(ip)) => Ok(
                    DialAddress::V6 { ipv6: ip, port: self.port, flow_info: 0, scope_id: 0 },
                ),
                None => Err(DirectError::HostNotIp),
            },
    {
        match ip {
            Some(IpAddress::V4(ip)) => Ok(DialAddress::V4 { ipv4: ip, port: self.port }),
            Some(IpAddress::V6(ip)) => Ok(
                DialAddress::V6 { ipv6: ip, port: self.port, flow_info: 0, scope_id: 0 },
            ),
            None => Err(DirectError::HostNotIp),
        }
    }
}

/// The connection that a request goes over. `None` stands for a registration without connections,
/// and a list without a healthy connection for one whose connections are all closed.
pub fn request_connection<T>(connections: Option<Option<T>>) -> (connection: Result<T, DirectError>)
    ensures
        connection == match connections {
            None => Err::<T, DirectError>(DirectError::NotConnected),
            Some(None) => Err(DirectError::ConnectionClosed),
            Some(Some(healthy)) => Ok(healthy),
        },
{
    match connections {
        None => Err(DirectError::NotConnected),
        Some(None) => Err(DirectError::ConnectionClosed),
        Some(Some(healthy)) => Ok(healthy),
    }
}

/// The request id of a worker's health check.
pub fn health_check_request_id(inference_server_id: &str) -> (id: String)
    ensures
        id@ == "stargate-health-"@ + inference_server_id@,
{
    let mut id: String = "stargate-health-".to_owned();
    id.append(inference_server_id);
    id
}

/// The header with the request id of a worker's health check.
pub fn health_check_header(inference_server_id: &str) -> (header: Result<
    http::HeaderValue,
    DirectError,
>)
    ensures
        ({
            let id = "stargate-health-"@ + inference_server_id@;
            match header {
                Ok(value) => is_header_value(id) && header_value_text(value) == id,
                Err(error) => !is_header_value(id) && error == DirectError::InvalidRequestId,
            }
        }),
{
    let id: String = health_check_request_id(inference_server_id);
    match header_value(id.as_str()) {
        Some(value) => Ok(value),
        None => Err(DirectError::InvalidRequestId),
    }
}

/// Whether a worker passed its health check, by the status that it answered with.
pub fn check_health_status(status: u16) -> (healthy: Result<(), DirectError>)
    ensures
        healthy == if success_status(status) {
            Ok::<(), DirectError>(())
        } else {
            Err(DirectError::Unhealthy { status })
        },
{
    if is_success_status(status) {
        Ok(())
    } else {
        Err(DirectError::Unhealthy { status })
    }
}

/// The listener answers the handshake that a pylon of the same protocol performs. A connection goes
/// to a peer exactly where one was resolved; of the others, the one whose pylon waits for a response
/// at the end is answered as a request for a session, and the one whose pylon waits for an
/// acknowledgement as a handshake.
pub proof fn the_listener_answers_the_handshake_of_the_pylon(
    resolution: Option<PeerResolution>,
    protocol: TunnelTransportProtocol,
    dispatch: Dispatch,
)
    requires
        call_ensures(dispatch_connection, (resolution, protocol), dispatch),
    ensures
        dispatch is Relay <==> resolution == Some(PeerResolution::Peer),
        !(dispatch is Relay) ==> (dispatch is WebTransportConnect <==> handshake_steps(
            protocol,
        ).last() is ReceiveResponse),
        !(dispatch is Relay) ==> (dispatch is Handshake <==> handshake_steps(
            protocol,
        ).last() is ReadAck),
{
}

} // verus!
