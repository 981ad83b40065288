//! Metadata records of Mach-O binaries.

pub mod commands;
