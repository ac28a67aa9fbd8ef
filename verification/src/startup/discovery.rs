//! How a stargate finds its peers, and what it calls itself.

use super::args::{discovery_checked, validate_discovery_args, Args, StartupError};
use crate::text::{copy_optional_text, optional_text};
use crate::tunnel::address::DialAddress;
use vstd::prelude::*;

verus! {

/// The template of the name that a stargate is known under, where none is given.
pub const DEFAULT_HOSTNAME_TEMPLATE: &'static str = "{pod_name}.stargate.external";

/// The port of an address.
pub open spec fn port_of(address: DialAddress) -> u16 {
    match address {
        DialAddress::V4 { port, .. } => port,
        DialAddress::V6 { port, .. } => port,
    }
}

/// The port of an address.
pub fn address_port(address: DialAddress) -> (port: u16)
    ensures
        port == port_of(address),
{
    match address {
        DialAddress::V4 { port, .. } => port,
        DialAddress::V6 { port, .. } => port,
    }
}

/// Forwarding to peers that a headless service names.
pub struct PeerForwarding {
    pub self_pod_name: String,
    pub advertised_hostname_template: String,
    pub namespace: String,
    pub headless_dns_suffix: String,
}

/// How a stargate finds its peers.
pub enum DiscoveryPlan {
    /// It has none.
    SelfOnly { advertise_addr: DialAddress, stargate_id: String, http_port: u16 },
    /// By the pods that a headless service names.
    Headless {
        self_pod_name: String,
        pod_namespace: String,
        advertised_hostname_template: String,
        discovery_dns_name: String,
        grpc_port: u16,
        resolver_ttl_ms: u64,
        forwarding: Option<PeerForwarding>,
    },
    /// By the addresses that a name stands for.
    Dns {
        advertise_addr: DialAddress,
        stargate_id: String,
        discovery_dns_name: String,
        http_port: u16,
        resolver_ttl_ms: u64,
    },
}

/// The contents of a `DiscoveryPlan`. Forwarding, where there is any, names the same pod, template,
/// namespace and service.
pub enum DiscoveryView {
    SelfOnly { advertise_addr: DialAddress, stargate_id: Seq<char>, http_port: u16 },
    Headless {
        self_pod_name: Seq<char>,
        pod_namespace: Seq<char>,
        advertised_hostname_template: Seq<char>,
        discovery_dns_name: Seq<char>,
        grpc_port: u16,
        resolver_ttl_ms: u64,
        forwarding: Option<(Seq<char>, Seq<char>, Seq<char>, Seq<char>)>,
    },
    Dns {
        advertise_addr: DialAddress,
        stargate_id: Seq<char>,
        discovery_dns_name: Seq<char>,
        http_port: u16,
        resolver_ttl_ms: u64,
    },
}

impl View for DiscoveryPlan {
    type V = DiscoveryView;

    open spec fn view(&self) -> DiscoveryView {
        match *self {
            DiscoveryPlan::SelfOnly { advertise_addr, stargate_id, http_port } =>
                DiscoveryView::SelfOnly { advertise_addr, stargate_id: stargate_id@, http_port },
            DiscoveryPlan::Headless {
                self_pod_name,
                pod_namespace,
                advertised_hostname_template,
                discovery_dns_name,
                grpc_port,
                resolver_ttl_ms,
                forwarding,
            } => DiscoveryView::Headless {
                self_pod_name: self_pod_name@,
                pod_namespace: pod_namespace@,
                advertised_hostname_template: advertised_hostname_template@,
                discovery_dns_name: discovery_dns_name@,
                grpc_port,
                resolver_ttl_ms,
                forwarding: match forwarding {
                    Some(peer) => Some(
                        (
                            peer.self_pod_name@,
                            peer.advertised_hostname_template@,
                            peer.namespace@,
                            peer.headless_dns_suffix@,
                        ),
                    ),
                    None => None,
                },
            },
            DiscoveryPlan::Dns {
                advertise_addr,
                stargate_id,
                discovery_dns_name,
                http_port,
                resolver_ttl_ms,
            } => DiscoveryView::Dns {
                advertise_addr,
                stargate_id: stargate_id@,
                discovery_dns_name: discovery_dns_name@,
                http_port,
                resolver_ttl_ms,
            },
        }
    }
}

/// The template of the name that a stargate is known under.
pub open spec fn hostname_template(args: Args) -> Seq<char> {
    match args.advertised_hostname_template {
        Some(template) => template@,
        None => DEFAULT_HOSTNAME_TEMPLATE@,
    }
}

/// How a stargate finds its peers: not at all where that is switched off, by a headless service
/// where its own pod is known, and by a name otherwise.
pub open spec fn discovery_of(
    args: Args,
    advertise_addr: DialAddress,
    http_listen_addr: DialAddress,
) -> DiscoveryView {
    if args.disable_dns_discovery {
        DiscoveryView::SelfOnly {
            advertise_addr,
            stargate_id: args.stargate_id@,
            http_port: port_of(http_listen_addr),
        }
    } else if args.pod_name is Some && args.pod_namespace is Some {
        DiscoveryView::Headless {
            self_pod_name: args.pod_name->0@,
            pod_namespace: args.pod_namespace->0@,
            advertised_hostname_template: hostname_template(args),
            discovery_dns_name: args.stargate_discovery_dns_name@,
            grpc_port: port_of(advertise_addr),
            resolver_ttl_ms: args.dns_resolver_ttl_ms,
            forwarding: if args.enable_dev_peer_forwarding {
                Some(
                    (
                        args.pod_name->0@,
                        hostname_template(args),
                        args.pod_namespace->0@,
                        args.stargate_discovery_dns_name@,
                    ),
                )
            } else {
                None
            },
        }
    } else {
        DiscoveryView::Dns {
            advertise_addr,
            stargate_id: args.stargate_id@,
            discovery_dns_name: args.stargate_discovery_dns_name@,
            http_port: port_of(http_listen_addr),
            resolver_ttl_ms: args.dns_resolver_ttl_ms,
        }
    }
}

fn copy_hostname_template(args: &Args) -> (template: String)
    ensures
        template@ == hostname_template(*args),
{
    match &args.advertised_hostname_template {
        Some(template) => template.clone(),
        None => DEFAULT_HOSTNAME_TEMPLATE.to_owned(),
    }
}

/// How a stargate finds its peers.
pub fn discovery_plan_from_args(
    args: &Args,
    advertise_addr: DialAddress,
    http_listen_addr: DialAddress,
) -> (plan: Result<DiscoveryPlan, StartupError>)
    ensures
        match plan {
            Ok(plan) => discovery_checked(*args) is Ok && plan@ == discovery_of(
                *args,
                advertise_addr,
                http_listen_addr,
            ),
            Err(error) => discovery_checked(*args) == Err::<(), StartupError>(error),
        },
{
    match validate_discovery_args(args) {
        Ok(()) => {},
        Err(error) => return Err(error),
    }
    if args.disable_dns_discovery {
        return Ok(
            DiscoveryPlan::SelfOnly {
                advertise_addr,
                stargate_id: args.stargate_id.clone(),
                http_port: address_port(http_listen_addr),
            },
        );
    }
    match (&args.pod_name, &args.pod_namespace) {
        (Some(pod_name), Some(pod_namespace)) => {
            let forwarding: Option<PeerForwarding> = if args.enable_dev_peer_forwarding {
                Some(
                    PeerForwarding {
                        self_pod_name: pod_name.clone(),
                        advertised_hostname_template: copy_hostname_template(args),
                        namespace: pod_namespace.clone(),
                        headless_dns_suffix: args.stargate_discovery_dns_name.clone(),
                    },
                )
            } else {
                None
            };
            Ok(
                DiscoveryPlan::Headless {
                    self_pod_name: pod_name.clone(),
                    pod_namespace: pod_namespace.clone(),
                    advertised_hostname_template: copy_hostname_template(args),
                    discovery_dns_name: args.stargate_discovery_dns_name.clone(),
                    grpc_port: address_port(advertise_addr),
                    resolver_ttl_ms: args.dns_resolver_ttl_ms,
                    forwarding,
                },
            )
        },
        _ => Ok(
            DiscoveryPlan::Dns {
                advertise_addr,
                stargate_id: args.stargate_id.clone(),
                discovery_dns_name: args.stargate_discovery_dns_name.clone(),
                http_port: address_port(http_listen_addr),
                resolver_ttl_ms: args.dns_resolver_ttl_ms,
            },
        ),
    }
}

/// What a listener for reverse tunnels is bound with: its address, what its name is made of, the
/// address that pylons dial, and how long a connection may take.
pub struct ReverseTunnelPlan {
    pub listen_addr: String,
    pub hostname_template: String,
    pub pod_name: String,
    pub pod_namespace: String,
    pub pylon_dial_addr: Option<String>,
    pub connect_timeout_ms: u64,
}

/// What a listener for reverse tunnels is bound with, if there is to be one. The pod goes by the
/// name of the stargate where it has none, and a namespace that is not known is empty.
pub fn reverse_tunnel_plan_from_args(args: &Args) -> (plan: Option<ReverseTunnelPlan>)
    ensures
        plan is Some <==> args.reverse_tunnel_listen_addr is Some,
        plan matches Some(plan) ==> {
            &&& plan.listen_addr@ == args.reverse_tunnel_listen_addr->0@
            &&& plan.hostname_template@ == hostname_template(*args)
            &&& plan.pod_name@ == match args.pod_name {
                Some(name) => name@,
                None => args.stargate_id@,
            }
            &&& plan.pod_namespace@ == match args.pod_namespace {
                Some(namespace) => namespace@,
                None => ""@,
            }
            &&& optional_text(plan.pylon_dial_addr) == optional_text(
                args.reverse_tunnel_pylon_dial_addr,
            )
            &&& plan.connect_timeout_ms == args.reverse_tunnel_connect_timeout_ms
        },
{
    let listen_addr: String = match &args.reverse_tunnel_listen_addr {
        Some(address) => address.clone(),
        None => return None,
    };
    let pod_name: String = match &args.pod_name {
        Some(name) => name.clone(),
        None => args.stargate_id.clone(),
    };
    let pod_namespace: String = match &args.pod_namespace {
        Some(namespace) => namespace.clone(),
        None => "".to_owned(),
    };
    Some(
        ReverseTunnelPlan {
            listen_addr,
            hostname_template: copy_hostname_template(args),
            pod_name,
            pod_namespace,
            pylon_dial_addr: copy_optional_text(&args.reverse_tunnel_pylon_dial_addr),
            connect_timeout_ms: args.reverse_tunnel_connect_timeout_ms,
        },
    )
}

/// Peers are forwarded to only where they are found by a headless service, under the names that
/// the service gives them.
pub proof fn forwarding_follows_headless_discovery(
    args: Args,
    advertise_addr: DialAddress,
    http_listen_addr: DialAddress,
)
    requires
        discovery_checked(args) is Ok,
    ensures
        args.enable_dev_peer_forwarding <==> (discovery_of(
            args,
            advertise_addr,
            http_listen_addr,
        ) matches DiscoveryView::Headless { forwarding: Some(_), .. }),
{
}

} // verus!
