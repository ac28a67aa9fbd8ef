//! From the arguments of a stargate to what it is to start.

pub mod args;
pub mod discovery;
pub mod laws;
pub mod proxy;
pub mod runtime;
pub mod worker_auth;
