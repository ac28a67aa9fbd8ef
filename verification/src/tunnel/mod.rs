pub mod address;
pub mod reverse_state;
pub mod connect;
pub mod protocol;
pub mod laws;
pub mod listener;
pub mod session;
