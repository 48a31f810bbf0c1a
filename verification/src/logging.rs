//! Log levels and their names.

use vstd::prelude::*;

use crate::text::str_eq;

verus! {

/// How much the logger writes.
#[derive(Debug, Clone, Copy, PartialEq, Eq, Structural)]
pub enum LogLevel {
    Trace,
    Info,
    Debug,
    Warn,
    Error,
}

/// The level a name stands for; unknown names give `Trace`.
pub open spec fn log_level_parse(s: Seq<char>) -> LogLevel {
    if s == "trace"@ {
        LogLevel::Trace
    } else if s == "info"@ {
        LogLevel::Info
    } else if s == "debug"@ {
        LogLevel::Debug
    } else if s == "warn"@ {
        LogLevel::Warn
    } else if s == "error"@ {
        LogLevel::Error
    } else {
        LogLevel::Trace
    }
}

impl LogLevel {
    pub fn from_str(s: &str) -> (r: LogLevel)
        ensures
            r == log_level_parse(s@),
    {
        if str_eq(s, "trace") {
            LogLevel::Trace
        } else if str_eq(s, "info") {
            LogLevel::Info
        } else if str_eq(s, "debug") {
            LogLevel::Debug
        } else if str_eq(s, "warn") {
            LogLevel::Warn
        } else if str_eq(s, "error") {
            LogLevel::Error
        } else {
            LogLevel::Trace
        }
    }
}

impl Default for LogLevel {
    fn default() -> (r: LogLevel)
        ensures
            r == LogLevel::Trace,
    {
        LogLevel::Trace
    }
}

} // verus!
