pub mod family;
pub mod laws;
pub mod pylon;
pub mod pylon_families;
pub mod router;
