//! Sans-I/O source connector for newline-delimited JSON event archives.
//!
//! The connector turns the lines of an archive file into typed events. It
//! does no I/O of its own: a driver opens the file, reads one line at a time
//! and hands each outcome to [`gharchive::GHarchiveSource`], which decides
//! what the pipeline receives.
//!
//! - [`format`] tells from a file's name whether its bytes are gzip.
//! - [`text`] validates and trims the text of a line.
//! - [`json`] holds JSON documents as plain values; `serde_json` parses.
//! - [`time`] holds instants; `chrono` parses.
//! - [`event`] is the data model, [`decode`] the schema that a line is held
//!   to, and [`error`] what a pull can fail with.
//! - [`gharchive`] is the source itself, with the laws of its life cycle.

pub mod text;
pub mod json;
pub mod time;
pub mod event;
pub mod error;
pub mod decode;
pub mod format;
pub mod gharchive;
