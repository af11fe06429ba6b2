use vstd::prelude::*;

verus! {

/// Severity of a message.
///
/// The variants are listed from most to least severe, and a variant's ordinal
/// is its place in that list: ERROR is 0 and TRACE is 4. Comparisons go by
/// ordinal, so ERROR is the *smallest* level, and a configured minimum lets
/// through every level whose ordinal does not exceed its own.
#[derive(Clone, Copy, Debug, PartialEq, Eq, Structural)]
pub enum LogLevel {
    /// Errors that cause premature termination of operations.
    ERROR,
    /// Warnings that indicate potential issues.
    WARN,
    /// Informational messages for normal operation.
    INFO,
    /// Debug messages for detailed troubleshooting.
    DEBUG,
    /// Trace-level logs for in-depth diagnostics.
    TRACE,
}

/// The ordinal of a level: its place in the order ERROR, WARN, INFO, DEBUG, TRACE.
pub open spec fn ordinal_of(l: LogLevel) -> nat {
    match l {
        LogLevel::ERROR => 0,
        LogLevel::WARN => 1,
        LogLevel::INFO => 2,
        LogLevel::DEBUG => 3,
        LogLevel::TRACE => 4,
    }
}

/// The name of a level as it appears in output.
pub open spec fn level_name_of(l: LogLevel) -> Seq<char> {
    match l {
        LogLevel::ERROR => "ERROR"@,
        LogLevel::WARN => "WARN"@,
        LogLevel::INFO => "INFO"@,
        LogLevel::DEBUG => "DEBUG"@,
        LogLevel::TRACE => "TRACE"@,
    }
}

pub open spec fn cmp_of(a: LogLevel, b: LogLevel) -> Option<core::cmp::Ordering> {
    if ordinal_of(a) < ordinal_of(b) {
        Some(core::cmp::Ordering::Less)
    } else if ordinal_of(a) == ordinal_of(b) {
        Some(core::cmp::Ordering::Equal)
    } else {
        Some(core::cmp::Ordering::Greater)
    }
}

impl LogLevel {
    /// The ordinal of this level (ERROR 0, WARN 1, INFO 2, DEBUG 3, TRACE 4).
    pub fn ordinal(&self) -> (r: u8)
        ensures
            r as nat == ordinal_of(*self),
    {
        match self {
            LogLevel::ERROR => 0,
            LogLevel::WARN => 1,
            LogLevel::INFO => 2,
            LogLevel::DEBUG => 3,
            LogLevel::TRACE => 4,
        }
    }

    /// The name of this level, as a `Debug` rendering of it would print.
    pub fn name(&self) -> (r: &'static str)
        ensures
            r@ == level_name_of(*self),
    {
        match self {
            LogLevel::ERROR => "ERROR",
            LogLevel::WARN => "WARN",
            LogLevel::INFO => "INFO",
            LogLevel::DEBUG => "DEBUG",
            LogLevel::TRACE => "TRACE",
        }
    }
}

impl PartialOrd for LogLevel {
    fn partial_cmp(&self, other: &LogLevel) -> (r: Option<core::cmp::Ordering>) {
        let a = self.ordinal();
        let b = other.ordinal();
        if a < b {
            Some(core::cmp::Ordering::Less)
        } else if a == b {
            Some(core::cmp::Ordering::Equal)
        } else {
            Some(core::cmp::Ordering::Greater)
        }
    }
}

impl vstd::std_specs::cmp::PartialOrdSpecImpl for LogLevel {
    open spec fn obeys_partial_cmp_spec() -> bool {
        true
    }

    open spec fn partial_cmp_spec(&self, other: &LogLevel) -> Option<core::cmp::Ordering> {
        cmp_of(*self, *other)
    }
}

/// Format of the file sink. Both variants currently render lines the same way:
/// a JSON encoding is not implemented, and `JSON` writes the text line.
#[derive(Clone, Copy, Debug, PartialEq, Eq, Structural)]
pub enum FileLoggerFormat {
    /// JSON-formatted log output (not yet implemented: writes the text line).
    JSON,
    /// Plain text log output.
    TEXT,
}

} // verus!
