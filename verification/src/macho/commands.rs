//! Mach-O load commands.

pub mod source_version;
