//! A policy-enforcing JSON-RPC proxy core.
//!
//! The library holds the decision logic of a proxy that stands between
//! untrusted HTTP clients and a single trusted upstream JSON-RPC node:
//! decoding request envelopes, applying per-method policy rules, classifying
//! upstream outcomes, and assembling wire-level replies. The surrounding
//! HTTP server and the upstream connection live outside the library and
//! drive it step by step.

pub mod codec;
pub mod json;
pub mod laws;
pub mod policy;
pub mod reply;
pub mod router;
pub mod upstream;

use vstd::prelude::*;

verus! {

/// Maps a verbosity count to a log level; counts past the known
/// levels are invalid and yield `None`.
pub enum LogLevel {
    Info,
    Debug,
    Trace,
}

/// Parses the verbosity flag count of the command line.
pub fn parse_log_level(level: u8) -> (r: Option<LogLevel>)
    ensures
        r == (match level {
            0u8 => Some(LogLevel::Info),
            1u8 => Some(LogLevel::Debug),
            2u8 => Some(LogLevel::Trace),
            _ => None::<LogLevel>,
        }),
{
    match level {
        0 => Some(LogLevel::Info),
        1 => Some(LogLevel::Debug),
        2 => Some(LogLevel::Trace),
        _ => None,
    }
}

} // verus!
