//! Assembles a Software Bill of Materials document for a Rust package and
//! renders it into one of several text formats.
//!
//! The library builds a canonical in-memory document from plain package and
//! file metadata, computes content checksums, and decides how a document may
//! be written out: a valid destination path, no silent overwrite, and one
//! rendering per supported format.

pub mod checksum;
pub mod document;
pub mod key_value;
pub mod output;
pub mod paths;
