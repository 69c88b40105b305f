//! Levels of the audit log.
use vstd::prelude::*;

verus! {

/// How grave an entry of the audit log is.
#[derive(Clone, Copy, Debug, PartialEq, Eq, Structural)]
pub enum LogLevel {
    Debug,
    Trace,
    Info,
    Warn,
    Error,
}

impl LogLevel {
    /// The level at which the outcome of a request is logged.
    pub open spec fn spec_of_outcome(succeeded: bool) -> LogLevel {
        if succeeded {
            LogLevel::Info
        } else {
            LogLevel::Error
        }
    }

    /// The level at which the outcome of a request is logged: a success as
    /// information, a failure as an error.
    pub fn of_outcome(succeeded: bool) -> (level: LogLevel)
        ensures
            level == LogLevel::spec_of_outcome(succeeded),
    {
        if succeeded {
            LogLevel::Info
        } else {
            LogLevel::Error
        }
    }
}

} // verus!
