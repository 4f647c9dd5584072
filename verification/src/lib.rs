//! Verified core of a small command-line file dumper.
//!
//! The tool takes one positional argument, a file path; resolves it to a
//! canonical absolute path; reads the whole file into memory; and reports the
//! resolved path and the raw bytes. Every failure is a named, terminal error
//! with a one-line diagnostic and a non-zero exit.
//!
//! The library holds the decisions of that pipeline as a verified state
//! machine ([`pipeline`]) together with the error taxonomy and diagnostics
//! ([`error`]). The surrounding binary performs the filesystem work and feeds
//! each outcome back as an event; the machine decides what happens next.

pub mod error;
pub mod pipeline;
