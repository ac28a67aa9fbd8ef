pub mod bytes;
pub mod load_balancer;
pub mod metrics;
pub mod queue_estimate;
pub mod registration;
pub mod startup;
pub mod text;
pub mod tls;
pub mod trace;
pub mod tunnel;
