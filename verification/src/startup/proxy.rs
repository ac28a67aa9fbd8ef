//! How requests are forwarded: retries, timeouts and TLS material.

use super::args::{Args, StartupError};
use crate::bytes::copy_bytes;
use crate::text::{optional_text, trim, trimmed};
use crate::tls::identity::{IdentityView, ServerTlsIdentity, DEFAULT_TLS_RELOAD_INTERVAL_SECONDS};
use crate::tls::reload::{ClientTrustReloader, ServerIdentityReloader};
use crate::tunnel::connect::optional_bytes;
use crate::tunnel::protocol::TunnelTransportProtocol;
use vstd::prelude::*;

verus! {

/// When and how often a request is tried again. The other settings keep their defaults.
pub struct ProxyRetryConfig {
    pub max_connect_retries: usize,
    pub max_request_retries: usize,
    pub max_replay_body_bytes: usize,
    pub require_pylon_retry_signal: bool,
    pub request_retry_budget_ms_header: Option<String>,
}

/// Whether a character may stand in the name of a header.
pub open spec fn is_token_char(c: char) -> bool {
    ||| '0' <= c <= '9'
    ||| 'a' <= c <= 'z'
    ||| 'A' <= c <= 'Z'
    ||| seq!['!', '#', '$', '%', '&', '\'', '*', '+', '-', '.', '^', '_', '`', '|', '~'].contains(c)
}

/// A character in lower case, as far as it is a letter of ASCII.
pub open spec fn lower_char(c: char) -> char {
    if 'A' <= c <= 'Z' {
        (c as u32 + 32) as char
    } else {
        c
    }
}

/// The name of a header that a text gives: the text in lower case, if it is no longer than 65535
/// characters, not empty, and made of letters, digits and the marks that may stand in a name.
pub open spec fn header_name_of(text: Seq<char>) -> Option<Seq<char>> {
    if 0 < text.len() <= 65535 && (forall|i: int|
        0 <= i < text.len() ==> is_token_char(#[trigger] text[i])) {
        Some(Seq::new(text.len(), |i: int| lower_char(text[i])))
    } else {
        None
    }
}

/// The name of a header, from `http::HeaderName::from_bytes`: the text in lower case, where it is
/// made of the characters of a token and is neither empty nor too long.
#[verifier::external_body]
fn header_name(text: &str) -> (name: Option<String>)
    ensures
        optional_text(name) == header_name_of(text@),
{
    http::HeaderName::from_bytes(text.as_bytes()).ok().map(|name| name.as_str().to_owned())
}

/// The header that holds the retry budget of a request: none if its name is blank.
pub open spec fn retry_budget_header(text: Seq<char>) -> Result<Option<Seq<char>>, StartupError> {
    if trimmed(text).len() == 0 {
        Ok(None)
    } else {
        match header_name_of(trimmed(text)) {
            Some(name) => Ok(Some(name)),
            None => Err(StartupError::InvalidRetryBudgetHeader),
        }
    }
}

/// Whether a configuration of retries follows the arguments.
pub open spec fn retries_follow(config: ProxyRetryConfig, args: Args) -> bool {
    &&& config.max_connect_retries == args.proxy_max_connect_retries
    &&& config.max_request_retries == args.proxy_max_request_retries
    &&& config.max_replay_body_bytes == args.proxy_max_replay_body_bytes
    &&& config.require_pylon_retry_signal == args.proxy_require_pylon_retry_signal
    &&& retry_budget_header(args.proxy_retry_budget_header@) == Ok::<_, StartupError>(
        optional_text(config.request_retry_budget_ms_header),
    )
}

/// When and how often a request is tried again. A budget header that is no header name is refused.
pub fn proxy_retry_config_from_args(args: &Args) -> (config: Result<ProxyRetryConfig, StartupError>)
    ensures
        match config {
            Ok(config) => retries_follow(config, *args),
            Err(error) => retry_budget_header(args.proxy_retry_budget_header@) == Err::<
                Option<Seq<char>>,
                StartupError,
            >(error),
        },
{
    let header: &str = trim(args.proxy_retry_budget_header.as_str());
    let request_retry_budget_ms_header: Option<String> = if header.unicode_len() == 0 {
        None
    } else {
        match header_name(header) {
            Some(name) => Some(name),
            None => return Err(StartupError::InvalidRetryBudgetHeader),
        }
    };
    Ok(
        ProxyRetryConfig {
            max_connect_retries: args.proxy_max_connect_retries,
            max_request_retries: args.proxy_max_request_retries,
            max_replay_body_bytes: args.proxy_max_replay_body_bytes,
            require_pylon_retry_signal: args.proxy_require_pylon_retry_signal,
            request_retry_budget_ms_header,
        },
    )
}

/// The files that TLS material is to be loaded from.
pub struct TlsFiles {
    /// The certificate and the key of the own identity.
    pub server_identity: Option<(String, String)>,
    /// The certificates that are trusted.
    pub client_trust: Option<String>,
}

/// The contents of paths to a certificate and a key.
pub open spec fn path_pair(paths: Option<(String, String)>) -> Option<(Seq<char>, Seq<char>)> {
    match paths {
        Some((cert, key)) => Some((cert@, key@)),
        None => None,
    }
}

/// The files that an own identity is loaded from: needed only where backends dial, and then either
/// both or none.
pub open spec fn identity_files(args: Args) -> Result<
    Option<(Seq<char>, Seq<char>)>,
    StartupError,
> {
    match (
        args.reverse_tunnel_listen_addr,
        optional_text(args.tls_cert_path),
        optional_text(args.tls_key_path),
    ) {
        (None, _, _) => Ok(None),
        (Some(_), None, None) => Ok(None),
        (Some(_), Some(cert), Some(key)) => Ok(Some((cert, key))),
        (Some(_), Some(_), None) => Err(StartupError::TlsKeyPathMissing),
        (Some(_), None, Some(_)) => Err(StartupError::TlsCertPathMissing),
    }
}

/// The file that trusted certificates are loaded from: none where any certificate is taken.
pub open spec fn trust_file(args: Args) -> Option<Seq<char>> {
    if args.quic_insecure {
        None
    } else {
        optional_text(args.tls_cert_path)
    }
}

/// The files that TLS material is to be loaded from.
pub fn tls_files_from_args(args: &Args) -> (files: Result<TlsFiles, StartupError>)
    ensures
        match files {
            Ok(files) => identity_files(*args) == Ok::<_, StartupError>(
                path_pair(files.server_identity),
            ) && optional_text(files.client_trust) == trust_file(*args),
            Err(error) => identity_files(*args) == Err::<
                Option<(Seq<char>, Seq<char>)>,
                StartupError,
            >(error),
        },
{
    let server_identity: Option<(String, String)> = if args.reverse_tunnel_listen_addr.is_some() {
        match (&args.tls_cert_path, &args.tls_key_path) {
            (Some(cert), Some(key)) => Some((cert.clone(), key.clone())),
            (None, None) => None,
            (Some(_), None) => return Err(StartupError::TlsKeyPathMissing),
            (None, Some(_)) => return Err(StartupError::TlsCertPathMissing),
        }
    } else {
        None
    };
    let client_trust: Option<String> = if args.quic_insecure {
        None
    } else {
        crate::text::copy_optional_text(&args.tls_cert_path)
    };
    Ok(TlsFiles { server_identity, client_trust })
}

/// How backends are reached over QUIC.
pub struct QuicTunnelConfig {
    pub connect_timeout_ms: u64,
    pub request_timeout_ms: u64,
    pub server_tls_identity: ServerTlsIdentity,
    pub server_identity_reloader: Option<ServerIdentityReloader>,
    pub tls_reload_interval_seconds: u64,
    pub tls_cert_pem: Option<Vec<u8>>,
    pub client_trust_reloader: Option<ClientTrustReloader>,
    pub quic_insecure: bool,
    pub tunnel_protocol: TunnelTransportProtocol,
    pub direct_quic_connections: usize,
}

/// How requests are forwarded.
pub struct ProxyTransportConfig {
    pub quic: QuicTunnelConfig,
    pub retry: ProxyRetryConfig,
}

/// How requests are forwarded, with TLS material that was loaded: the identity and the trusted
/// certificates are those that the reloaders hold, and a self-signed identity stands in where there
/// is no reloader.
pub fn proxy_transport_config_from_args(
    args: &Args,
    retry: ProxyRetryConfig,
    server_identity_reloader: Option<ServerIdentityReloader>,
    client_trust_reloader: Option<ClientTrustReloader>,
) -> (config: ProxyTransportConfig)
    ensures
        config.retry == retry,
        config.quic.connect_timeout_ms == args.quic_connect_timeout_ms,
        config.quic.request_timeout_ms == args.quic_request_timeout_ms,
        config.quic.server_tls_identity@ == match server_identity_reloader {
            Some(reloader) => reloader@.current,
            None => IdentityView::SelfSigned,
        },
        config.quic.server_identity_reloader == server_identity_reloader,
        config.quic.tls_reload_interval_seconds == DEFAULT_TLS_RELOAD_INTERVAL_SECONDS,
        optional_bytes(config.quic.tls_cert_pem) == match client_trust_reloader {
            Some(reloader) => Some(reloader@.current),
            None => None,
        },
        config.quic.client_trust_reloader == client_trust_reloader,
        config.quic.quic_insecure == args.quic_insecure,
        config.quic.tunnel_protocol == args.tunnel_protocol,
        config.quic.direct_quic_connections == args.direct_quic_connections,
{
    let server_tls_identity: ServerTlsIdentity = match &server_identity_reloader {
        Some(reloader) => reloader.current_identity().duplicate(),
        None => ServerTlsIdentity::SelfSigned,
    };
    let tls_cert_pem: Option<Vec<u8>> = match &client_trust_reloader {
        Some(reloader) => Some(copy_bytes(reloader.current_pem())),
        None => None,
    };
    ProxyTransportConfig {
        quic: QuicTunnelConfig {
            connect_timeout_ms: args.quic_connect_timeout_ms,
            request_timeout_ms: args.quic_request_timeout_ms,
            server_tls_identity,
            server_identity_reloader,
            tls_reload_interval_seconds: DEFAULT_TLS_RELOAD_INTERVAL_SECONDS,
            tls_cert_pem,
            client_trust_reloader,
            quic_insecure: args.quic_insecure,
            tunnel_protocol: args.tunnel_protocol,
            direct_quic_connections: args.direct_quic_connections,
        },
        retry,
    }
}

/// A header name is its own header name: the name that a text gives is taken as it is.
pub proof fn header_names_are_settled(text: Seq<char>)
    requires
        header_name_of(text) is Some,
    ensures
        header_name_of(header_name_of(text)->0) == header_name_of(text),
{
    let name = header_name_of(text)->0;
    assert forall|i: int| 0 <= i < name.len() implies is_token_char(#[trigger] name[i])
        && lower_char(name[i]) == name[i] by {
        assert(is_token_char(text[i]));
        lemma_lower_char(text[i]);
    }
    assert(header_name_of(name)->0 =~= name);
}

proof fn lemma_lower_char(c: char)
    requires
        is_token_char(c),
    ensures
        is_token_char(lower_char(c)),
        lower_char(lower_char(c)) == lower_char(c),
{
    if 'A' <= c <= 'Z' {
        assert('a' <= lower_char(c) <= 'z');
    }
}

} // verus!
