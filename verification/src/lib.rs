//! Core of a directory-listing utility: per-entry metadata resolution,
//! platform attribute-bit decoding, and timestamp formatting.
//!
//! Enumeration of a directory and the raw OS queries are the caller's
//! business; this crate turns the raw values they hand over into
//! display-ready records, and proves exactly which strings come out.

pub mod attrs;
pub mod func;
pub mod structs;
pub mod timeapi;
pub mod timefmt;

pub use func::RawEntry;
pub use structs::{Cli, FileEntry, FileMetadata, FileType};
