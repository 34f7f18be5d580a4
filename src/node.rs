//! Node-level settings chosen at start-up.
use vstd::prelude::*;

verus! {

/// Name of the append-only log of ordered batches, inside the store directory.
pub const OUTPUT_FILE_NAME: &'static str = "ordered_batches.json";

/// Severity threshold of the node's log.
#[derive(Clone, Copy, Debug, PartialEq, Eq, Structural)]
pub enum LogLevel {
    Error,
    Warn,
    Info,
    Debug,
    Trace,
}

impl LogLevel {
    /// The threshold selected by a verbosity flag given `v` times.
    pub open spec fn of_verbosity(v: u64) -> LogLevel {
        if v == 0 {
            LogLevel::Error
        } else if v == 1 {
            LogLevel::Warn
        } else if v == 2 {
            LogLevel::Info
        } else if v == 3 {
            LogLevel::Debug
        } else {
            LogLevel::Trace
        }
    }

    /// The threshold selected by a verbosity flag given `occurrences` times:
    /// errors only by default, one step more per occurrence, up to tracing.
    pub fn from_verbosity(occurrences: u64) -> (l: LogLevel)
        ensures
            l == LogLevel::of_verbosity(occurrences),
    {
        match occurrences {
            0 => LogLevel::Error,
            1 => LogLevel::Warn,
            2 => LogLevel::Info,
            3 => LogLevel::Debug,
            _ => LogLevel::Trace,
        }
    }

    /// The name of the threshold in log filter syntax.
    pub fn as_str(&self) -> (s: &'static str)
        ensures
            *self == LogLevel::Error ==> s@ == "error"@,
            *self == LogLevel::Warn ==> s@ == "warn"@,
            *self == LogLevel::Info ==> s@ == "info"@,
            *self == LogLevel::Debug ==> s@ == "debug"@,
            *self == LogLevel::Trace ==> s@ == "trace"@,
    {
        match self {
            LogLevel::Error => "error",
            LogLevel::Warn => "warn",
            LogLevel::Info => "info",
            LogLevel::Debug => "debug",
            LogLevel::Trace => "trace",
        }
    }
}

} // verus!
