//! Verbosity of the diagnostics.

use vstd::prelude::*;

verus! {

/// How much the program reports of what it does, from most to least.
#[derive(Debug, Clone, Copy, PartialEq, Eq)]
pub enum LogLevel {
    Trace,
    Debug,
    Info,
    Warn,
    Error,
}

impl Default for LogLevel {
    /// `Info`, unless told otherwise.
    fn default() -> (level: LogLevel)
        ensures
            level == LogLevel::Info,
    {
        LogLevel::Info
    }
}

} // verus!
