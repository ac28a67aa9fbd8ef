pub mod calendar;
pub mod der;
pub mod error;
pub mod identity;
pub mod material_laws;
pub mod pem;
pub mod quic;
pub mod reload;
pub mod rotation;
pub mod time_laws;
