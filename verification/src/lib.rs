//! A read-only object model for the metadata embedded in executable
//! containers: ELF notes, Mach-O load commands, PE load configurations,
//! PE resource trees and Authenticode signatures.

pub mod elf;
pub mod macho;
pub mod pe;
