use vstd::prelude::*;
use crate::level::{LogLevel, FileLoggerFormat};

verus! {

/// The path the file sink writes to when none is given.
pub open spec fn default_path() -> Seq<char> {
    "log.txt"@
}

/// Builder for the file sink's settings.
pub struct FileLoggerBuilder {
    /// Enables or disables file logging.
    pub enabled: bool,
    /// Path to the log file.
    pub path: Option<String>,
    /// Format of the log file.
    pub log_format: Option<FileLoggerFormat>,
}

/// The file sink's settings, every field resolved.
#[derive(Clone, Debug)]
pub struct FileLogger {
    /// Whether each emitted line is appended to the file.
    pub enabled: bool,
    /// Path to the log file.
    pub path: String,
    /// Format of the log file.
    pub log_format: FileLoggerFormat,
}

impl FileLoggerBuilder {
    /// A builder with file logging disabled, no path and the text format.
    pub fn new() -> (r: FileLoggerBuilder)
        ensures
            !r.enabled,
            r.path is None,
            r.log_format == Some(FileLoggerFormat::TEXT),
    {
        FileLoggerBuilder { enabled: false, path: None, log_format: Some(FileLoggerFormat::TEXT) }
    }

    /// Sets the path of the log file.
    pub fn path(self, path: String) -> (r: FileLoggerBuilder)
        ensures
            r.enabled == self.enabled,
            r.path == Some(path),
            r.log_format == self.log_format,
    {
        FileLoggerBuilder { path: Some(path), ..self }
    }

    /// Sets the format of the log file.
    pub fn log_format(self, log_format: FileLoggerFormat) -> (r: FileLoggerBuilder)
        ensures
            r.enabled == self.enabled,
            r.path == self.path,
            r.log_format == Some(log_format),
    {
        FileLoggerBuilder { log_format: Some(log_format), ..self }
    }

    /// Resolves the settings: a missing path becomes `log.txt`, a missing format
    /// becomes text. Building never fails.
    pub fn build(self) -> (r: Result<FileLogger, String>)
        ensures
            r is Ok,
            r->Ok_0.enabled == self.enabled,
            r->Ok_0.path@ == match self.path {
                Some(p) => p@,
                None => default_path(),
            },
            r->Ok_0.log_format == match self.log_format {
                Some(f) => f,
                None => FileLoggerFormat::TEXT,
            },
    {
        let path = match self.path {
            Some(p) => p,
            None => String::from_str("log.txt"),
        };
        let log_format = match self.log_format {
            Some(f) => f,
            None => FileLoggerFormat::TEXT,
        };
        Ok(FileLogger { enabled: self.enabled, path, log_format })
    }
}

/// Builder for the whole logging configuration.
pub struct ConfigBuilder {
    /// Least severe level that is emitted.
    pub log_level: Option<LogLevel>,
    /// Keeps DEBUG and TRACE messages in builds without debug assertions.
    pub log_in_release: bool,
    /// Enables or disables time-stamping in logs.
    pub log_with_time: Option<bool>,
    /// Enables or disables standard output logging.
    pub std: bool,
    /// Configuration for file-based logging.
    pub file_logger_config: Option<FileLoggerBuilder>,
}

/// The full logging configuration: a snapshot that is built once and then only read.
#[derive(Clone, Debug)]
pub struct Config {
    /// Least severe level that is emitted.
    pub log_level: LogLevel,
    /// Keeps DEBUG and TRACE messages in builds without debug assertions.
    pub log_in_release: bool,
    /// Whether time-stamping is enabled.
    pub log_with_time: bool,
    /// Whether standard output logging is enabled.
    pub std: bool,
    /// File logger configuration.
    pub file_logger_config: FileLogger,
}

/// The file sink that `builder` resolves to; the defaults where there is none.
pub open spec fn resolved_file_logger(builder: Option<FileLoggerBuilder>, f: FileLogger) -> bool {
    match builder {
        Some(b) => {
            &&& f.enabled == b.enabled
            &&& f.path@ == match b.path {
                Some(p) => p@,
                None => default_path(),
            }
            &&& f.log_format == match b.log_format {
                Some(x) => x,
                None => FileLoggerFormat::TEXT,
            }
        },
        None => {
            &&& !f.enabled
            &&& f.path@ == default_path()
            &&& f.log_format == FileLoggerFormat::TEXT
        },
    }
}

impl ConfigBuilder {
    /// A builder with the defaults: level INFO, no DEBUG or TRACE outside debug
    /// builds, timestamps and console output on, no file sink settings.
    pub fn new() -> (r: ConfigBuilder)
        ensures
            r.log_level == Some(LogLevel::INFO),
            !r.log_in_release,
            r.log_with_time == Some(true),
            r.std,
            r.file_logger_config is None,
    {
        ConfigBuilder {
            log_level: Some(LogLevel::INFO),
            log_in_release: false,
            log_with_time: Some(true),
            std: true,
            file_logger_config: None,
        }
    }

    /// Sets the least severe level that is emitted.
    pub fn log_level(self, level: Option<LogLevel>) -> (r: Self)
        ensures
            r == (ConfigBuilder { log_level: level, ..self }),
    {
        ConfigBuilder { log_level: level, ..self }
    }

    /// Sets whether lines carry a timestamp.
    pub fn log_with_time(self, log_with_time: Option<bool>) -> (r: Self)
        ensures
            r == (ConfigBuilder { log_with_time: log_with_time, ..self }),
    {
        ConfigBuilder { log_with_time, ..self }
    }

    /// Sets whether lines are printed on standard output.
    pub fn stdout(self, enabled: bool) -> (r: Self)
        ensures
            r == (ConfigBuilder { std: enabled, ..self }),
    {
        ConfigBuilder { std: enabled, ..self }
    }

    /// Sets the file sink's builder.
    pub fn file_logger_config(self, file_logger_config: Option<FileLoggerBuilder>) -> (r: Self)
        ensures
            r == (ConfigBuilder { file_logger_config: file_logger_config, ..self }),
    {
        ConfigBuilder { file_logger_config, ..self }
    }

    /// Resolves every setting to its value or its default (level INFO,
    /// timestamps on, the file sink's own defaults). Building never fails; the
    /// result is put in place with `install`.
    pub fn build(self) -> (r: Result<Config, String>)
        ensures
            r is Ok,
            r->Ok_0.log_level == match self.log_level {
                Some(l) => l,
                None => LogLevel::INFO,
            },
            r->Ok_0.log_in_release == self.log_in_release,
            r->Ok_0.log_with_time == match self.log_with_time {
                Some(t) => t,
                None => true,
            },
            r->Ok_0.std == self.std,
            resolved_file_logger(self.file_logger_config, r->Ok_0.file_logger_config),
    {
        let log_level = match self.log_level {
            Some(l) => l,
            None => LogLevel::INFO,
        };
        let log_with_time = match self.log_with_time {
            Some(t) => t,
            None => true,
        };
        let file_builder = match self.file_logger_config {
            Some(b) => b,
            None => FileLoggerBuilder::new(),
        };
        let file_logger_config = file_builder.build().unwrap();
        Ok(Config {
            log_level,
            log_in_release: self.log_in_release,
            log_with_time,
            std: self.std,
            file_logger_config,
        })
    }
}

/// The slot after an install of `config` into `slot`, and whether it was accepted.
pub open spec fn install_outcome(slot: Option<Config>, config: Config) -> (Option<Config>, bool) {
    match slot {
        Some(c) => (Some(c), false),
        None => (Some(config), true),
    }
}

/// Puts `config` into the process-wide slot, which takes one configuration for
/// the whole life of the process. A second install is a programming error: it
/// is refused with an error and the configuration already there stays.
pub fn install(slot: &mut Option<Config>, config: Config) -> (r: Result<(), String>)
    ensures
        (*final(slot), r is Ok) == install_outcome(*old(slot), config),
{
    if slot.is_some() {
        Err(String::from_str("LumaLog: Config has already been initialized"))
    } else {
        *slot = Some(config);
        Ok(())
    }
}

/// Installing twice is refused, and the slot then holds the first configuration.
pub proof fn lemma_install_once(first: Config, second: Config)
    ensures
        install_outcome(None, first).1,
        !install_outcome(install_outcome(None, first).0, second).1,
        install_outcome(install_outcome(None, first).0, second).0 == Some(first),
{
}

} // verus!
