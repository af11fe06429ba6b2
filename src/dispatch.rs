use vstd::prelude::*;
use crate::level::{LogLevel, ordinal_of};
use crate::config::Config;
use crate::format::{formatter, is_styled_line, plain_line, time_of};

verus! {

/// The console line printed when a message is logged before any configuration
/// was installed.
pub open spec fn not_initialized_line() -> Seq<char> {
    "[ FATAL ] LumaLog: Config has not been initialized!"@
}

/// The text that opens the console error printed when the file sink fails.
pub open spec fn file_failure_prefix() -> Seq<char> {
    "Can not save log information in file: "@
}

/// Outside debug builds, DEBUG and TRACE are dropped unless the configuration
/// keeps them.
pub open spec fn release_suppressed(config: Config, level: LogLevel, debug_build: bool) -> bool {
    !debug_build && !config.log_in_release && ordinal_of(level) >= ordinal_of(LogLevel::DEBUG)
}

/// A level passes the configured minimum when its ordinal does not exceed the minimum's.
pub open spec fn passes_level(config: Config, level: LogLevel) -> bool {
    ordinal_of(level) <= ordinal_of(config.log_level)
}

/// Whether a message of `level` is emitted under `config`.
pub open spec fn emits(config: Config, level: LogLevel, debug_build: bool) -> bool {
    !release_suppressed(config, level, debug_build) && passes_level(config, level)
}

/// Decides whether a message of `level` is emitted under `config`, where
/// `debug_build` tells whether the program was built with debug assertions.
pub fn should_log(config: &Config, level: LogLevel, debug_build: bool) -> (r: bool)
    ensures
        r == emits(*config, level, debug_build),
{
    if !debug_build && !config.log_in_release && level >= LogLevel::DEBUG {
        return false;
    }
    if level > config.log_level {
        return false;
    }
    true
}

/// What one log call does: the line to print on the console, and the line to
/// append to the file sink's path, each if any.
pub struct LogPlan {
    pub console: Option<String>,
    pub file: Option<String>,
}

/// Decides what a call to log `message` at `level` prints and writes.
///
/// Without a configuration it prints the fixed notice and writes nothing. With
/// one, a message that is filtered out gives nothing; otherwise the console line
/// is printed where console output is on and the plain line is written where
/// the file sink is on, both rendered at the instant `nanos`.
pub fn plan_log(
    config: Option<&Config>,
    level: LogLevel,
    message: &str,
    debug_build: bool,
    nanos: i64,
) -> (r: LogPlan)
    ensures
        match config {
            None => {
                &&& r.console is Some
                &&& r.console->0@ == not_initialized_line()
                &&& r.file is None
            },
            Some(c) => if !emits(*c, level, debug_build) {
                r.console is None && r.file is None
            } else {
                &&& (r.console is Some <==> c.std)
                &&& (r.file is Some <==> c.file_logger_config.enabled)
                &&& r.console is Some ==> is_styled_line(
                    r.console->0@,
                    time_of(*c, nanos),
                    level,
                    message@,
                )
                &&& r.file is Some ==> r.file->0@ == plain_line(time_of(*c, nanos), level, message@)
            },
        },
{
    match config {
        None => LogPlan {
            console: Some(String::from_str("[ FATAL ] LumaLog: Config has not been initialized!")),
            file: None,
        },
        Some(c) => {
            if !should_log(c, level, debug_build) {
                return LogPlan { console: None, file: None };
            }
            let (styled, plain) = formatter(c, level, message, nanos);
            let console = if c.std {
                Some(styled)
            } else {
                None
            };
            let file = if c.file_logger_config.enabled {
                Some(plain)
            } else {
                None
            };
            LogPlan { console, file }
        },
    }
}

/// The console line that reports a failed write to the file sink: an ERROR line
/// whose message is the fixed prefix and the failure's description.
pub fn file_failure_line(config: &Config, error: &str, nanos: i64) -> (r: String)
    ensures
        is_styled_line(
            r@,
            time_of(*config, nanos),
            LogLevel::ERROR,
            file_failure_prefix() + error@,
        ),
{
    let mut message = String::from_str("Can not save log information in file: ");
    message.append(error);
    let (styled, _plain) = formatter(config, LogLevel::ERROR, message.as_str(), nanos);
    styled
}

/// Level filtering: where the release rule does not apply, a message of level
/// `a` is emitted under a configured minimum `b` exactly when the ordinal of
/// `a` does not exceed the ordinal of `b`.
pub proof fn lemma_level_filter(config: Config, a: LogLevel, debug_build: bool)
    requires
        debug_build || config.log_in_release,
    ensures
        emits(config, a, debug_build) <==> ordinal_of(a) <= ordinal_of(config.log_level),
{
}

/// Release rule: outside a debug build, with the release option off, DEBUG and
/// TRACE messages are dropped whatever the configured minimum.
pub proof fn lemma_release_drops_verbose(config: Config, level: LogLevel)
    requires
        !config.log_in_release,
        level == LogLevel::DEBUG || level == LogLevel::TRACE,
    ensures
        !emits(config, level, false),
{
}

} // verus!
