//! Metadata records of PE binaries.

pub mod debug;
pub mod load_configuration;
pub mod resources;
pub mod signature;
