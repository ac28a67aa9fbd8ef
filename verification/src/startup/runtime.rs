//! What a stargate runs with.

use super::args::{Args, StartupError};
use super::proxy::ProxyTransportConfig;
use crate::text::{copy_optional_text, optional_text, texts};
use crate::tunnel::address::DialAddress;
use vstd::prelude::*;

verus! {

/// What a stargate runs with. Its authenticator lets every worker in until another is put in its
/// place, and it forwards to no peers until it is told how.
pub struct StargateRuntimeConfig {
    pub stargate_id: String,
    pub grpc_listen_addr: DialAddress,
    pub model_discovery_listen_addr: DialAddress,
    pub http_listen_addr: DialAddress,
    pub metrics_listen_addr: Option<DialAddress>,
    pub advertise_addr: DialAddress,
    pub stargate_discovery_dns_name: String,
    pub remote_watch_stargate_urls: Vec<String>,
    pub grpc_pylon_dial_addr: Option<String>,
    pub dns_poll_interval_ms: u64,
    pub watch_heartbeat_interval_ms: u64,
    pub registration_update_idle_timeout_ms: u64,
    pub registration_update_max_idle_timeout_ms: u64,
    pub proxy_transport: ProxyTransportConfig,
    pub lb_config_path: Option<String>,
    pub metrics_prefix: Option<String>,
}

/// A copy of a list of texts.
fn copy_texts(list: &Vec<String>) -> (copy: Vec<String>)
    ensures
        texts(copy@) == texts(list@),
{
    let mut copy: Vec<String> = Vec::new();
    let mut at: usize = 0;
    while at < list.len()
        invariant
            at <= list@.len(),
            copy@.len() == at,
            forall|i: int| 0 <= i < at ==> (#[trigger] copy@[i])@ == list@[i]@,
        decreases list@.len() - at,
    {
        copy.push(list[at].clone());
        at = at + 1;
    }
    assert(texts(copy@) =~= texts(list@));
    copy
}

/// What a stargate runs with. The three addresses to listen on are those that the arguments were
/// read as, `None` being one that is no address.
pub fn runtime_config_from_args(
    args: &Args,
    grpc_listen_addr: Option<DialAddress>,
    model_discovery_listen_addr: Option<DialAddress>,
    http_listen_addr: Option<DialAddress>,
    proxy_transport: ProxyTransportConfig,
) -> (config: Result<StargateRuntimeConfig, StartupError>)
    ensures
        config is Ok <==> grpc_listen_addr is Some && model_discovery_listen_addr is Some
            && http_listen_addr is Some,
        config matches Err(error) ==> error == StartupError::InvalidListenAddr,
        config matches Ok(config) ==> {
            &&& config.stargate_id@ == args.stargate_id@
            &&& Some(config.grpc_listen_addr) == grpc_listen_addr
            &&& Some(config.model_discovery_listen_addr) == model_discovery_listen_addr
            &&& Some(config.http_listen_addr) == http_listen_addr
            &&& config.metrics_listen_addr == Some(
                DialAddress::V4 { ipv4: 0, port: args.metrics_port },
            )
            &&& config.advertise_addr == args.advertise_addr
            &&& config.stargate_discovery_dns_name@ == args.stargate_discovery_dns_name@
            &&& texts(config.remote_watch_stargate_urls@) == texts(args.remote_stargate_url@)
            &&& optional_text(config.grpc_pylon_dial_addr) == optional_text(
                args.grpc_pylon_dial_addr,
            )
            &&& config.dns_poll_interval_ms == args.dns_poll_ms
            &&& config.watch_heartbeat_interval_ms == args.watch_heartbeat_ms
            &&& config.registration_update_idle_timeout_ms
                == args.registration_update_idle_timeout_ms
            &&& config.registration_update_max_idle_timeout_ms
                == args.registration_update_max_idle_timeout_ms
            &&& config.proxy_transport == proxy_transport
            &&& optional_text(config.lb_config_path) == optional_text(args.lb_config_path)
            &&& optional_text(config.metrics_prefix) == optional_text(args.metrics_prefix)
        },
{
    match (grpc_listen_addr, model_discovery_listen_addr, http_listen_addr) {
        (
            Some(grpc_listen_addr),
            Some(model_discovery_listen_addr),
            Some(http_listen_addr),
        ) => Ok(
            StargateRuntimeConfig {
                stargate_id: args.stargate_id.clone(),
                grpc_listen_addr,
                model_discovery_listen_addr,
                http_listen_addr,
                metrics_listen_addr: Some(DialAddress::V4 { ipv4: 0, port: args.metrics_port }),
                advertise_addr: args.advertise_addr,
                stargate_discovery_dns_name: args.stargate_discovery_dns_name.clone(),
                remote_watch_stargate_urls: copy_texts(&args.remote_stargate_url),
                grpc_pylon_dial_addr: copy_optional_text(&args.grpc_pylon_dial_addr),
                dns_poll_interval_ms: args.dns_poll_ms,
                watch_heartbeat_interval_ms: args.watch_heartbeat_ms,
                registration_update_idle_timeout_ms: args.registration_update_idle_timeout_ms,
                registration_update_max_idle_timeout_ms:
                    args.registration_update_max_idle_timeout_ms,
                proxy_transport,
                lb_config_path: copy_optional_text(&args.lb_config_path),
                metrics_prefix: copy_optional_text(&args.metrics_prefix),
            },
        ),
        _ => Err(StartupError::InvalidListenAddr),
    }
}

} // verus!
