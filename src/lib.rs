//! A small process-wide logging facility: leveled, optionally timestamped
//! console output with optional mirroring of each line to a file.
//!
//! The library holds the rules: the level order, the configuration model,
//! filtering, and the rendering of each line. Printing, appending to a file and
//! holding the process-wide configuration are left to the caller.

mod level;
mod style;
mod config;
mod format;
mod dispatch;

pub use level::{LogLevel, FileLoggerFormat};
pub use config::{FileLoggerBuilder, FileLogger, ConfigBuilder, Config, install};
pub use format::{formatter, compose_plain, compose_styled};
pub use style::{style_level, style_time, display_time};
pub use dispatch::{should_log, plan_log, file_failure_line, LogPlan};
