//! The arguments of a stargate, and which of them go together.

use crate::tunnel::address::DialAddress;
use crate::tunnel::protocol::TunnelTransportProtocol;
use vstd::prelude::*;

verus! {

/// Who connects: the stargate to its backends, or the backends to the stargate.
#[derive(Clone, Copy, Debug, PartialEq, Eq, Structural)]
pub enum BackendConnectivity {
    Direct,
    Reverse,
}

/// The arguments of a stargate.
pub struct Args {
    pub stargate_id: String,
    pub listen_addr: String,
    pub model_discovery_listen_addr: String,
    pub http_listen_addr: String,
    pub metrics_port: u16,
    pub metrics_prefix: Option<String>,
    pub advertise_addr: DialAddress,
    pub stargate_discovery_dns_name: String,
    pub remote_stargate_url: Vec<String>,
    pub grpc_pylon_dial_addr: Option<String>,
    pub dns_poll_ms: u64,
    pub dns_resolver_ttl_ms: u64,
    pub watch_heartbeat_ms: u64,
    pub registration_update_idle_timeout_ms: u64,
    pub registration_update_max_idle_timeout_ms: u64,
    pub lb_config_path: Option<String>,
    pub disable_dns_discovery: bool,
    pub enable_dev_peer_forwarding: bool,
    pub pod_name: Option<String>,
    pub pod_namespace: Option<String>,
    pub advertised_hostname_template: Option<String>,
    pub backend_connectivity: BackendConnectivity,
    pub reverse_tunnel_listen_addr: Option<String>,
    pub reverse_tunnel_pylon_dial_addr: Option<String>,
    pub reverse_tunnel_connect_timeout_ms: u64,
    pub tls_cert_path: Option<String>,
    pub tls_key_path: Option<String>,
    pub quic_insecure: bool,
    pub quic_connect_timeout_ms: u64,
    pub quic_request_timeout_ms: u64,
    pub tunnel_protocol: TunnelTransportProtocol,
    pub direct_quic_connections: usize,
    pub proxy_max_connect_retries: usize,
    pub proxy_max_request_retries: usize,
    pub proxy_max_replay_body_bytes: usize,
    pub proxy_require_pylon_retry_signal: bool,
    pub proxy_retry_budget_header: String,
}

/// Why a stargate is not started.
#[derive(Clone, Copy, Debug, PartialEq, Eq, Structural)]
pub enum StartupError {
    /// There is an address to listen on for reverse tunnels, but backends are dialed.
    ListenAddrNeedsReverse,
    /// There is an address that pylons are to dial, but backends are dialed.
    DialAddrNeedsReverse,
    /// Backends dial, but there is no address to listen on.
    ReverseNeedsListenAddr,
    /// Forwarding to peers, but peers are not looked for.
    ForwardingWithoutDiscovery,
    /// Forwarding to peers, but the own pod is not known.
    ForwardingWithoutPod,
    /// There is a certificate but no key.
    TlsKeyPathMissing,
    /// There is a key but no certificate.
    TlsCertPathMissing,
    /// The header with the retry budget has no valid name.
    InvalidRetryBudgetHeader,
    /// An address to listen on is none.
    InvalidListenAddr,
    /// Client credentials are to be used, but there is no file with secrets.
    SecretsPathMissing,
}

impl StartupError {
    /// The description of the error.
    pub open spec fn text(self) -> Seq<char> {
        match self {
            StartupError::ListenAddrNeedsReverse =>
                "--reverse-tunnel-listen-addr requires --backend-connectivity=reverse"@,
            StartupError::DialAddrNeedsReverse =>
                "--reverse-tunnel-pylon-dial-addr requires --backend-connectivity=reverse"@,
            StartupError::ReverseNeedsListenAddr =>
                "--backend-connectivity=reverse requires --reverse-tunnel-listen-addr"@,
            StartupError::ForwardingWithoutDiscovery =>
                "--enable-dev-peer-forwarding cannot be combined with --disable-dns-discovery"@,
            StartupError::ForwardingWithoutPod =>
                "--enable-dev-peer-forwarding requires both --pod-name and --pod-namespace"@,
            StartupError::TlsKeyPathMissing =>
                "TLS key path is required when TLS cert path is provided"@,
            StartupError::TlsCertPathMissing =>
                "TLS cert path is required when TLS key path is provided"@,
            StartupError::InvalidRetryBudgetHeader => "invalid proxy retry budget header"@,
            StartupError::InvalidListenAddr => "invalid socket address syntax"@,
            StartupError::SecretsPathMissing =>
                "OAUTH2_PROVIDER_HOST is set but SECRETS_PATH is not; client-credentials worker auth needs the secrets file with the id/secret"@,
        }
    }

    /// The description of the error.
    pub fn message(self) -> (text: &'static str)
        ensures
            text@ == self.text(),
    {
        match self {
            StartupError::ListenAddrNeedsReverse =>
                "--reverse-tunnel-listen-addr requires --backend-connectivity=reverse",
            StartupError::DialAddrNeedsReverse =>
                "--reverse-tunnel-pylon-dial-addr requires --backend-connectivity=reverse",
            StartupError::ReverseNeedsListenAddr =>
                "--backend-connectivity=reverse requires --reverse-tunnel-listen-addr",
            StartupError::ForwardingWithoutDiscovery =>
                "--enable-dev-peer-forwarding cannot be combined with --disable-dns-discovery",
            StartupError::ForwardingWithoutPod =>
                "--enable-dev-peer-forwarding requires both --pod-name and --pod-namespace",
            StartupError::TlsKeyPathMissing =>
                "TLS key path is required when TLS cert path is provided",
            StartupError::TlsCertPathMissing =>
                "TLS cert path is required when TLS key path is provided",
            StartupError::InvalidRetryBudgetHeader => "invalid proxy retry budget header",
            StartupError::InvalidListenAddr => "invalid socket address syntax",
            StartupError::SecretsPathMissing =>
                "OAUTH2_PROVIDER_HOST is set but SECRETS_PATH is not; client-credentials worker auth needs the secrets file with the id/secret",
        }
    }
}

/// What is wrong with how backends are connected.
pub open spec fn connectivity_checked(args: Args) -> Result<(), StartupError> {
    match args.backend_connectivity {
        BackendConnectivity::Direct => if args.reverse_tunnel_listen_addr is Some {
            Err(StartupError::ListenAddrNeedsReverse)
        } else if args.reverse_tunnel_pylon_dial_addr is Some {
            Err(StartupError::DialAddrNeedsReverse)
        } else {
            Ok(())
        },
        BackendConnectivity::Reverse => if args.reverse_tunnel_listen_addr is None {
            Err(StartupError::ReverseNeedsListenAddr)
        } else {
            Ok(())
        },
    }
}

/// Refuses addresses for reverse tunnels where backends are dialed, and their absence where
/// backends dial.
pub fn validate_backend_connectivity_args(args: &Args) -> (checked: Result<(), StartupError>)
    ensures
        checked == connectivity_checked(*args),
{
    match args.backend_connectivity {
        BackendConnectivity::Direct => {
            if args.reverse_tunnel_listen_addr.is_some() {
                return Err(StartupError::ListenAddrNeedsReverse);
            }
            if args.reverse_tunnel_pylon_dial_addr.is_some() {
                return Err(StartupError::DialAddrNeedsReverse);
            }
        },
        BackendConnectivity::Reverse => {
            if args.reverse_tunnel_listen_addr.is_none() {
                return Err(StartupError::ReverseNeedsListenAddr);
            }
        },
    }
    Ok(())
}

/// What is wrong with how peers are found and forwarded to.
pub open spec fn discovery_checked(args: Args) -> Result<(), StartupError> {
    if !args.enable_dev_peer_forwarding {
        Ok(())
    } else if args.disable_dns_discovery {
        Err(StartupError::ForwardingWithoutDiscovery)
    } else if args.pod_name is None || args.pod_namespace is None {
        Err(StartupError::ForwardingWithoutPod)
    } else {
        Ok(())
    }
}

/// Refuses forwarding to peers where peers are not looked for, or where the own pod is not known.
pub fn validate_discovery_args(args: &Args) -> (checked: Result<(), StartupError>)
    ensures
        checked == discovery_checked(*args),
{
    if args.disable_dns_discovery && args.enable_dev_peer_forwarding {
        return Err(StartupError::ForwardingWithoutDiscovery);
    }
    if args.enable_dev_peer_forwarding && (args.pod_name.is_none() || args.pod_namespace.is_none()) {
        return Err(StartupError::ForwardingWithoutPod);
    }
    Ok(())
}

} // verus!
