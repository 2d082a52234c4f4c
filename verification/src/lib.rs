//! Verified core of `mkfile`, a command-line utility that creates files.
//!
//! The library holds everything the tool decides or computes: the argument
//! tokenizer, the option validator, the per-path decision tree, and the exact
//! text of every user-visible message.  The thin binary around it only
//! queries the filesystem and performs the actions the library has planned.

pub mod decide;
pub mod laws;
pub mod messages;
pub mod options;
pub mod plan;
pub mod report;
pub mod strutil;
pub mod tokenize;
