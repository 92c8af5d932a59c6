//! The logging verbosity selector.
//!
//! Wiring a logging backend is the caller's work; which verbosity a
//! configuration string selects is decided here.

use vstd::prelude::*;
use crate::text::{lower_of, lowercase};

verus! {

/// The five logging verbosities, coarsest first.
#[derive(Debug, Clone, Copy, PartialEq, Eq, Structural)]
pub enum LevelFilter {
    Error,
    Warn,
    Info,
    Debug,
    Trace,
}

/// The verbosity a lowercased configuration string selects; anything
/// unrecognized falls back to `Info`.
pub open spec fn parse_log_level_spec(lowered: Seq<char>) -> LevelFilter {
    if lowered == "error"@ {
        LevelFilter::Error
    } else if lowered == "warn"@ {
        LevelFilter::Warn
    } else if lowered == "info"@ {
        LevelFilter::Info
    } else if lowered == "debug"@ {
        LevelFilter::Debug
    } else if lowered == "trace"@ {
        LevelFilter::Trace
    } else {
        LevelFilter::Info
    }
}

/// Parse a logging level name, case-insensitively, falling back to `Info`.
pub fn parse_log_level(level: &str) -> (r: LevelFilter)
    ensures
        r == parse_log_level_spec(lower_of(level@)),
{
    let lowered = lowercase(level);
    if lowered == "error".to_owned() {
        LevelFilter::Error
    } else if lowered == "warn".to_owned() {
        LevelFilter::Warn
    } else if lowered == "info".to_owned() {
        LevelFilter::Info
    } else if lowered == "debug".to_owned() {
        LevelFilter::Debug
    } else if lowered == "trace".to_owned() {
        LevelFilter::Trace
    } else {
        LevelFilter::Info
    }
}

} // verus!
