//! What holds of starting up: which arguments go together, and what follows from them.

use super::args::{
    validate_backend_connectivity_args, validate_discovery_args, Args, BackendConnectivity,
    StartupError,
};
use super::discovery::{
    address_port, discovery_plan_from_args, reverse_tunnel_plan_from_args, DiscoveryPlan,
    ReverseTunnelPlan,
};
use super::proxy::{
    is_token_char, proxy_retry_config_from_args, proxy_transport_config_from_args,
    tls_files_from_args, ProxyRetryConfig, ProxyTransportConfig, TlsFiles,
};
use super::runtime::{runtime_config_from_args, StargateRuntimeConfig};
use super::worker_auth::{
    dotted_from, split_at_dots, worker_auth_startup_from_args, TokenSource,
};
use crate::text::{first_position, joined, optional_text, texts, trimmed};
use crate::tls::identity::IdentityView;
use crate::tls::reload::{ClientTrustReloader, ServerIdentityReloader};
use crate::tunnel::address::DialAddress;
use vstd::prelude::*;

verus! {

/// Workers that are reached through reverse tunnels need an address to listen on; workers that are
/// reached directly must not be given one, nor an address for them to dial.
pub proof fn reverse_tunnels_need_an_address(args: Args, checked: Result<(), StartupError>)
    requires
        call_ensures(validate_backend_connectivity_args, (&args,), checked),
    ensures
        args.backend_connectivity is Reverse ==> (checked is Ok
            <==> args.reverse_tunnel_listen_addr is Some),
        args.backend_connectivity is Direct ==> (checked is Ok <==> args.reverse_tunnel_listen_addr
            is None && args.reverse_tunnel_pylon_dial_addr is None),
        checked matches Err(error) ==> {
            &&& error is ReverseNeedsListenAddr <==> args.backend_connectivity is Reverse
            &&& error is ListenAddrNeedsReverse <==> args.backend_connectivity is Direct
                && args.reverse_tunnel_listen_addr is Some
            &&& error is DialAddrNeedsReverse <==> args.backend_connectivity is Direct
                && args.reverse_tunnel_listen_addr is None
        },
{
}

/// Requests are forwarded to peers only where peers are discovered and the pod knows its name and
/// namespace.
pub proof fn forwarding_needs_peers_and_a_pod(args: Args, checked: Result<(), StartupError>)
    requires
        call_ensures(validate_discovery_args, (&args,), checked),
    ensures
        !args.enable_dev_peer_forwarding ==> checked is Ok,
        args.enable_dev_peer_forwarding ==> (checked is Ok <==> !args.disable_dns_discovery
            && args.pod_name is Some && args.pod_namespace is Some),
        checked matches Err(error) ==> (error is ForwardingWithoutDiscovery
            <==> args.disable_dns_discovery) && (error is ForwardingWithoutPod
            <==> !args.disable_dns_discovery),
{
}

/// A stargate without discovery knows only itself. With discovery, a pod that knows its name and
/// namespace finds its peers by the names of pods, and any other by address. What the plan holds comes
/// from the arguments: the port of the advertised address for pods, that of the http address
/// otherwise.
pub proof fn peers_are_discovered_as_the_arguments_say(
    args: Args,
    advertise_addr: DialAddress,
    http_listen_addr: DialAddress,
    plan: DiscoveryPlan,
    advertised_port: u16,
    http_port: u16,
)
    requires
        call_ensures(
            discovery_plan_from_args,
            (&args, advertise_addr, http_listen_addr),
            Ok::<DiscoveryPlan, StartupError>(plan),
        ),
        call_ensures(address_port, (advertise_addr,), advertised_port),
        call_ensures(address_port, (http_listen_addr,), http_port),
    ensures
        plan is SelfOnly <==> args.disable_dns_discovery,
        plan is Headless <==> !args.disable_dns_discovery && args.pod_name is Some
            && args.pod_namespace is Some,
        match plan {
            DiscoveryPlan::SelfOnly { advertise_addr: own, stargate_id, http_port: port } => {
                &&& own == advertise_addr
                &&& stargate_id@ == args.stargate_id@
                &&& port == http_port
            },
            DiscoveryPlan::Headless {
                self_pod_name,
                pod_namespace,
                advertised_hostname_template,
                discovery_dns_name,
                grpc_port,
                resolver_ttl_ms,
                forwarding,
            } => {
                &&& self_pod_name@ == args.pod_name->0@
                &&& pod_namespace@ == args.pod_namespace->0@
                &&& args.advertised_hostname_template is Some ==> advertised_hostname_template@
                    == args.advertised_hostname_template->0@
                &&& args.advertised_hostname_template is None ==> advertised_hostname_template@
                    == "{pod_name}.stargate.external"@
                &&& discovery_dns_name@ == args.stargate_discovery_dns_name@
                &&& grpc_port == advertised_port
                &&& resolver_ttl_ms == args.dns_resolver_ttl_ms
                &&& forwarding is Some <==> args.enable_dev_peer_forwarding
                &&& forwarding matches Some(peers) ==> {
                    &&& peers.self_pod_name@ == self_pod_name@
                    &&& peers.advertised_hostname_template@ == advertised_hostname_template@
                    &&& peers.namespace@ == pod_namespace@
                    &&& peers.headless_dns_suffix@ == discovery_dns_name@
                }
            },
            DiscoveryPlan::Dns {
                advertise_addr: own,
                stargate_id,
                discovery_dns_name,
                http_port: port,
                resolver_ttl_ms,
            } => {
                &&& own == advertise_addr
                &&& stargate_id@ == args.stargate_id@
                &&& discovery_dns_name@ == args.stargate_discovery_dns_name@
                &&& port == http_port
                &&& resolver_ttl_ms == args.dns_resolver_ttl_ms
            },
        },
        advertise_addr matches DialAddress::V4 { ipv4, port } ==> advertised_port == port,
        advertise_addr matches DialAddress::V6 { ipv6, port, flow_info, scope_id }
            ==> advertised_port == port,
{
}

/// A reverse tunnel is planned where there is an address to listen on. A stargate outside a pod goes
/// by its own name, in no namespace.
pub proof fn reverse_tunnels_are_planned_from_the_arguments(
    args: Args,
    plan: Option<ReverseTunnelPlan>,
)
    requires
        call_ensures(reverse_tunnel_plan_from_args, (&args,), plan),
    ensures
        plan is None <==> args.reverse_tunnel_listen_addr is None,
        plan matches Some(made) ==> {
            &&& made.listen_addr@ == args.reverse_tunnel_listen_addr->0@
            &&& args.pod_name is Some ==> made.pod_name@ == args.pod_name->0@
            &&& args.pod_name is None ==> made.pod_name@ == args.stargate_id@
            &&& args.pod_namespace is Some ==> made.pod_namespace@ == args.pod_namespace->0@
            &&& args.pod_namespace is None ==> made.pod_namespace@ == ""@
            &&& args.advertised_hostname_template is Some ==> made.hostname_template@
                == args.advertised_hostname_template->0@
            &&& args.advertised_hostname_template is None ==> made.hostname_template@
                == "{pod_name}.stargate.external"@
            &&& made.pylon_dial_addr is Some <==> args.reverse_tunnel_pylon_dial_addr is Some
            &&& made.pylon_dial_addr matches Some(dialed) ==> dialed@
                == args.reverse_tunnel_pylon_dial_addr->0@
            &&& made.connect_timeout_ms == args.reverse_tunnel_connect_timeout_ms
        },
{
}

/// The header with the retry budget is read by its name without the white space around it, in lower
/// case; a blank name means no such header, and what no header can be called is refused. The bounds on
/// retries are taken as they are given.
pub proof fn retries_are_bounded_as_the_arguments_say(
    args: Args,
    config: Result<ProxyRetryConfig, StartupError>,
    i: int,
)
    requires
        call_ensures(proxy_retry_config_from_args, (&args,), config),
    ensures
        ({
            let header = trimmed(args.proxy_retry_budget_header@);
            &&& config is Err <==> header.len() > 65535 || exists|j: int|
                0 <= j < header.len() && !is_token_char(#[trigger] header[j])
            &&& config matches Err(error) ==> error is InvalidRetryBudgetHeader
            &&& config matches Ok(made) ==> {
                &&& made.max_connect_retries == args.proxy_max_connect_retries
                &&& made.max_request_retries == args.proxy_max_request_retries
                &&& made.max_replay_body_bytes == args.proxy_max_replay_body_bytes
                &&& made.require_pylon_retry_signal == args.proxy_require_pylon_retry_signal
                &&& made.request_retry_budget_ms_header is None <==> header.len() == 0
                &&& header.len() > 0 ==> {
                    let name = made.request_retry_budget_ms_header->0@;
                    &&& name.len() == header.len()
                    &&& 0 <= i < header.len() && 'A' <= header[i] <= 'Z' ==> name[i] as u32
                        == header[i] as u32 + 32
                    &&& 0 <= i < header.len() && !('A' <= header[i] <= 'Z') ==> name[i]
                        == header[i]
                }
            }
        }),
{
    let header = trimmed(args.proxy_retry_budget_header@);
    if config is Ok && header.len() > 0 && 0 <= i < header.len() {
        let name = super::proxy::header_name_of(header);
        assert(name is Some);
        assert(name->0[i] == super::proxy::lower_char(header[i]));
        assert(optional_text(config->Ok_0.request_retry_budget_ms_header) == name);
    }
}

/// TLS files go together: a server that listens for reverse tunnels takes a certificate with its key,
/// or neither; a client trusts the certificate unless it is told to trust anyone.
pub proof fn tls_files_go_together(args: Args, files: Result<TlsFiles, StartupError>)
    requires
        call_ensures(tls_files_from_args, (&args,), files),
    ensures
        ({
            let listens = args.reverse_tunnel_listen_addr is Some;
            let cert = args.tls_cert_path;
            let key = args.tls_key_path;
            &&& files is Err <==> listens && (cert is Some <==> key is None)
            &&& files matches Err(error) ==> (error is TlsKeyPathMissing <==> cert is Some) && (error
                is TlsCertPathMissing <==> cert is None)
            &&& files matches Ok(found) ==> {
                &&& found.server_identity is Some <==> listens && cert is Some
                &&& found.server_identity matches Some((own, own_key)) ==> own@ == cert->0@
                    && own_key@ == key->0@
                &&& found.client_trust is Some <==> cert is Some && !args.quic_insecure
                &&& found.client_trust matches Some(trusted) ==> trusted@ == cert->0@
            }
        }),
{
}

/// A transport uses the material that was loaded, its own where none was, looks at it again every ten
/// seconds, and takes everything else from the arguments.
pub proof fn transports_use_what_was_loaded(
    args: Args,
    retry: ProxyRetryConfig,
    identity: Option<ServerIdentityReloader>,
    trust: Option<ClientTrustReloader>,
    config: ProxyTransportConfig,
)
    requires
        call_ensures(
            proxy_transport_config_from_args,
            (&args, retry, identity, trust),
            config,
        ),
    ensures
        identity is Some ==> config.quic.server_tls_identity@ == identity->0@.current,
        identity is None ==> config.quic.server_tls_identity@ is SelfSigned,
        config.quic.server_identity_reloader == identity,
        trust is Some ==> config.quic.tls_cert_pem is Some && config.quic.tls_cert_pem->0@
            == trust->0@.current,
        trust is None ==> config.quic.tls_cert_pem is None,
        config.quic.client_trust_reloader == trust,
        config.quic.tls_reload_interval_seconds == 10,
        config.quic.connect_timeout_ms == args.quic_connect_timeout_ms,
        config.quic.request_timeout_ms == args.quic_request_timeout_ms,
        config.quic.quic_insecure == args.quic_insecure,
        config.quic.tunnel_protocol == args.tunnel_protocol,
        config.quic.direct_quic_connections == args.direct_quic_connections,
        config.retry == retry,
{
}

/// A stargate runs with the three addresses that it listens on, each its own, metrics on every
/// interface at their port, and everything else as the arguments say; without one of the addresses it
/// does not run.
pub proof fn a_stargate_runs_as_the_arguments_say(
    args: Args,
    grpc: Option<DialAddress>,
    discovery: Option<DialAddress>,
    http: Option<DialAddress>,
    transport: ProxyTransportConfig,
    config: Result<StargateRuntimeConfig, StartupError>,
)
    requires
        call_ensures(
            runtime_config_from_args,
            (&args, grpc, discovery, http, transport),
            config,
        ),
    ensures
        config is Err <==> grpc is None || discovery is None || http is None,
        config matches Err(error) ==> error is InvalidListenAddr,
        config matches Ok(made) ==> {
            &&& made.grpc_listen_addr == grpc->0
            &&& made.model_discovery_listen_addr == discovery->0
            &&& made.http_listen_addr == http->0
            &&& made.metrics_listen_addr matches Some(DialAddress::V4 { ipv4, port }) && ipv4 == 0
                && port == args.metrics_port
            &&& made.advertise_addr == args.advertise_addr
            &&& made.stargate_id@ == args.stargate_id@
            &&& made.stargate_discovery_dns_name@ == args.stargate_discovery_dns_name@
            &&& texts(made.remote_watch_stargate_urls@) == texts(args.remote_stargate_url@)
            &&& optional_text(made.grpc_pylon_dial_addr) == optional_text(args.grpc_pylon_dial_addr)
            &&& made.dns_poll_interval_ms == args.dns_poll_ms
            &&& made.watch_heartbeat_interval_ms == args.watch_heartbeat_ms
            &&& made.registration_update_idle_timeout_ms == args.registration_update_idle_timeout_ms
            &&& made.registration_update_max_idle_timeout_ms
                == args.registration_update_max_idle_timeout_ms
            &&& made.proxy_transport == transport
            &&& optional_text(made.lb_config_path) == optional_text(args.lb_config_path)
            &&& optional_text(made.metrics_prefix) == optional_text(args.metrics_prefix)
        },
{
}

proof fn lemma_no_dots(text: Seq<char>, from: int, i: int)
    requires
        0 <= from <= text.len(),
        0 <= i < dotted_from(text, from).len(),
    ensures
        !dotted_from(text, from)[i].contains('.'),
    decreases text.len() - from,
{
    let dot = first_position(text, '.', from);
    lemma_dot(text, from);
    if dot >= text.len() {
        let part = text.subrange(from, text.len() as int);
        assert forall|j: int| 0 <= j < part.len() implies part[j] != '.' by {
            assert(part[j] == text[from + j]);
        }
    } else {
        let part = text.subrange(from, dot);
        if i == 0 {
            assert forall|j: int| 0 <= j < part.len() implies part[j] != '.' by {
                assert(part[j] == text[from + j]);
            }
        } else {
            lemma_no_dots(text, dot + 1, i - 1);
        }
    }
}

proof fn lemma_dot(text: Seq<char>, from: int)
    requires
        0 <= from <= text.len(),
    ensures
        from <= first_position(text, '.', from) <= text.len(),
        forall|i: int| from <= i < first_position(text, '.', from) ==> #[trigger] text[i] != '.',
    decreases text.len() - from,
{
    if from < text.len() && text[from] != '.' {
        lemma_dot(text, from + 1);
    }
}

/// A path is split at its dots and nowhere else: no part holds a dot, and the parts with dots between
/// them are the path.
pub proof fn paths_are_split_at_their_dots(text: &str, parts: Vec<String>, i: int)
    requires
        call_ensures(split_at_dots, (text,), parts),
    ensures
        parts@.len() > 0,
        0 <= i < parts@.len() ==> !parts@[i]@.contains('.'),
        joined(texts(parts@), seq!['.']) == text@,
{
    super::worker_auth::dotted_parts_make_up_the_text(text@, 0);
    assert(text@.subrange(0, text@.len() as int) =~= text@);
    assert(texts(parts@).len() == parts@.len());
    if 0 <= i < parts@.len() {
        lemma_no_dots(text@, 0, i);
        assert(texts(parts@)[i] == parts@[i]@);
    }
}

/// Workers are checked where there is an endpoint to ask. The token for it comes from client
/// credentials where a provider is named, which needs the secrets, else from the secrets by a path,
/// `authToken` where none is given, else there is none.
pub proof fn workers_are_checked_with_a_token(
    endpoint: Option<String>,
    secrets_path: Option<String>,
    secrets_json_path: Option<String>,
    provider_host: Option<String>,
    startup: Result<Option<(String, Option<TokenSource>)>, StartupError>,
    asked: String,
    source: Option<TokenSource>,
)
    requires
        call_ensures(
            worker_auth_startup_from_args,
            (endpoint, secrets_path, secrets_json_path, provider_host),
            startup,
        ),
        startup is Ok && startup->Ok_0 is Some ==> startup->Ok_0->0 == (asked, source),
    ensures
        startup is Err <==> endpoint is Some && provider_host is Some && secrets_path is None,
        startup matches Err(error) ==> error is SecretsPathMissing,
        startup is Ok ==> (startup->Ok_0 is None <==> endpoint is None),
        startup is Ok && endpoint is Some ==> {
            &&& asked@ == endpoint->0@
            &&& source is None <==> provider_host is None && secrets_path is None
            &&& source is Some ==> (source->0 is ClientCredentials <==> provider_host is Some)
            &&& provider_host is Some ==> (source matches Some(
                TokenSource::ClientCredentials { provider_host: host, secrets_path: path, scope },
            ) && host@ == provider_host->0@ && path@ == secrets_path->0@ && scope@
                == "llm:check_worker"@)
            &&& provider_host is None && secrets_path is Some ==> (source matches Some(
                TokenSource::JsonFile { path, key },
            ) && path@ == secrets_path->0@ && joined(texts(key@), seq!['.'])
                == match secrets_json_path {
                Some(written) => written@,
                None => "authToken"@,
            })
        },
{
    if startup is Ok && endpoint is Some && provider_host is None && secrets_path is Some {
        let written = match secrets_json_path {
            Some(written) => written@,
            None => "authToken"@,
        };
        super::worker_auth::dotted_parts_make_up_the_text(written, 0);
        assert(written.subrange(0, written.len() as int) =~= written);
    }
}

/// What a stargate says when its arguments do not go together: which of them is missing or too much.
pub proof fn refusals_name_the_arguments(error: StartupError, text: &'static str)
    requires
        call_ensures(StartupError::message, (error,), text),
    ensures
        error is ListenAddrNeedsReverse ==> text@
            == "--reverse-tunnel-listen-addr requires --backend-connectivity=reverse"@,
        error is DialAddrNeedsReverse ==> text@
            == "--reverse-tunnel-pylon-dial-addr requires --backend-connectivity=reverse"@,
        error is ReverseNeedsListenAddr ==> text@
            == "--backend-connectivity=reverse requires --reverse-tunnel-listen-addr"@,
        error is ForwardingWithoutDiscovery ==> text@
            == "--enable-dev-peer-forwarding cannot be combined with --disable-dns-discovery"@,
        error is ForwardingWithoutPod ==> text@
            == "--enable-dev-peer-forwarding requires both --pod-name and --pod-namespace"@,
        error is TlsKeyPathMissing ==> text@
            == "TLS key path is required when TLS cert path is provided"@,
        error is TlsCertPathMissing ==> text@
            == "TLS cert path is required when TLS key path is provided"@,
        error is InvalidRetryBudgetHeader ==> text@ == "invalid proxy retry budget header"@,
        error is InvalidListenAddr ==> text@ == "invalid socket address syntax"@,
        error is SecretsPathMissing ==> text@
            == "OAUTH2_PROVIDER_HOST is set but SECRETS_PATH is not; client-credentials worker auth needs the secrets file with the id/secret"@,
{
}

} // verus!
