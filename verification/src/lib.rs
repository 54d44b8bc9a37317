//! A file classification library: a byte-order-mark (BOM) signature table,
//! a first-match signature scan, and a null-byte heuristic that together
//! sort file contents into plain text, encoded text, and binary.

pub mod bom;
pub mod file;
pub mod filesystem;
pub mod filetype;
pub mod laws;
pub mod opt;
pub mod plugin;
pub mod stats;
