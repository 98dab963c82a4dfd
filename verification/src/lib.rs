//! Inspection of compiled object files (PE/COFF, ELF, Mach-O) through a
//! format-independent data model, and comparison of two inspected binaries.
//!
//! The byte-level layout parsing and the symbol demangling are delegated to
//! outside collaborators; this crate normalises their output into canonical
//! records and defines the comparison semantics over those records.

pub mod data;
pub mod demangle;
pub mod diff;
pub mod error;
pub mod flags;
pub mod layout;
pub mod listing;
pub mod parse;
pub mod raw;
pub mod text;
