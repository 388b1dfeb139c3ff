//! A small line-oriented text search library.
//!
//! A pattern is compiled once into a [`pattern::CompiledPattern`]; the lines
//! of one source are scanned into match records; each record is rendered as
//! an output line. File discovery, parallel dispatch and all I/O live outside
//! the library and hand it plain values.

pub mod cli;
pub mod pattern;
pub mod report;
pub mod scan;
