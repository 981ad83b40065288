//! Metadata records of ELF binaries.

pub mod note;
