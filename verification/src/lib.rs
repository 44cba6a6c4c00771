//! Planar: a transaction-based catalog of table metadata with pluggable file formats.
//!
//! The library decides and computes; it does no I/O. It plans the statements that an operation
//! runs on the catalog database, decodes the rows that come back, and judges what it is given.
//! Whoever runs the statements and reads the files drives it.
//!
//! - [`catalog`]: creating tables, committing mutations, reading snapshots and event logs.
//! - [`storage`]: file formats, their options, and how streams of record batches are written.
//! - [`bindings`]: data types and records as plain values, for bindings to other languages.

pub mod bindings;
pub mod catalog;
pub mod ids;
pub mod json;
pub mod storage;
pub mod text;
pub mod time;
