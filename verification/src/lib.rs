//! A local, file-backed note store ("vault") with a small persisted-settings
//! record.
//!
//! The vault keeps notes as files in a single flat directory, under the
//! naming convention `MM-DD-YY.md`.  This crate holds the verified core of
//! that store: the filename convention, the directory model, the scan that
//! turns a directory listing into a sequence of entries, and the write that
//! persists one entry.  The surrounding application performs the actual
//! filesystem calls and hands this crate plain values.

pub mod dir;
pub mod error;
pub mod laws;
pub mod pattern;
pub mod settings;
pub mod vault;
