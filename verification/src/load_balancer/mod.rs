//! Load balancers: how a request comes to a cluster.

pub mod algorithm;
pub mod choice_laws;
pub mod comparator;
pub mod config;
pub mod config_laws;
pub mod hashing;
pub mod laws;
pub mod measures;
pub mod power_of_n;
pub mod pulsar;
pub mod pulsar_wait_and_widen;
pub mod random;
pub mod request;
pub mod router;
pub mod routing_laws;
pub mod score;
pub mod target_state;
pub mod wait_and_widen;
pub mod widening_laws;
