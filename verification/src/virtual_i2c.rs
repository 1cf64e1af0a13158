//! Virtualisation of one I2C master among many device endpoints.

pub mod types;
pub mod model;
pub mod mux;
pub mod device;
pub mod laws;
pub mod transfer;
