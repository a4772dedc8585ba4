//! Decoder for Apple's BOM (Bill of Materials) binary container format.
//!
//! A BOM file is a collection of *blocks* (opaque byte regions addressed by
//! integer index) and *variables* (names bound to block indices). This crate
//! decodes such a container into a structured document: the fixed header, the
//! blocks index, the variables index, the classified blocks, and the named
//! top-level sections, tolerating malformed regions by recording soft errors
//! instead of abandoning the rest of the document.

pub mod block;
pub mod blocks;
pub mod bompath;
pub mod classify;
pub mod document;
pub mod err;
pub mod header;
pub mod laws;
pub mod paths;
pub mod reader;
pub mod textenc;
pub mod vars;
