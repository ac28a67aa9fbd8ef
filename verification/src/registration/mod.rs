//! The registration of an inference server with the routers that are found.

pub mod client;
pub mod supervisor;
