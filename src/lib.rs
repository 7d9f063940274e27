//! A filesystem-backed artifact store: projects hold immutable, single-file
//! versions, and per-project allow-lists of bearer tokens gate reading and
//! writing. This crate holds the decisions and the path arithmetic; the
//! caller performs the filesystem reads and writes that the decisions ask for.
pub mod credential;
pub mod error;
pub mod laws;
pub mod names;
pub mod paths;
pub mod store;
pub mod upload;
