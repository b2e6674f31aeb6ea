//! A file store scoped to one per-application data directory.
//!
//! The directory is modelled as a map from relative path to file contents.
//! The filesystem calls themselves happen outside this library; what it
//! decides is how each command proceeds from what the directory shows and
//! how each outcome becomes a reply.
pub mod command;
pub mod directory;
pub mod error;
