//! Logging configuration: what the logging backend outside the crate
//! is set up from.

use vstd::prelude::*;

verus! {

/// The verbosity levels, coarsest first.
#[derive(Debug, Clone, Copy, PartialEq, Eq, Structural)]
pub enum LogLevel {
    Error,
    Warn,
    Info,
    Debug,
    Trace,
}

/// How the logging backend is to be set up.
#[derive(Debug)]
pub struct LoggerConfig {
    pub level: LogLevel,
    pub enable_file_logging: bool,
    pub enable_json_format: bool,
    /// A directory for log files; the backend falls back to its
    /// platform default when none is given.
    pub log_dir: Option<String>,
    pub tui_mode: bool,
}

impl Default for LoggerConfig {
    /// Plain console logging at the informational level.
    fn default() -> (r: LoggerConfig)
        ensures
            r.level == LogLevel::Info,
            !r.enable_file_logging,
            !r.enable_json_format,
            r.log_dir is None,
            !r.tui_mode,
    {
        LoggerConfig {
            level: LogLevel::Info,
            enable_file_logging: false,
            enable_json_format: false,
            log_dir: None,
            tui_mode: false,
        }
    }
}

impl LoggerConfig {
    /// The defaults: console only, informational.
    pub fn new() -> (r: LoggerConfig)
        ensures
            r.level == LogLevel::Info,
            !r.enable_file_logging,
            !r.enable_json_format,
            r.log_dir is None,
            !r.tui_mode,
    {
        LoggerConfig::default()
    }

    /// The same configuration at the given level.
    pub fn with_level(self, level: LogLevel) -> (r: LoggerConfig)
        ensures
            r == (LoggerConfig { level, ..self }),
    {
        LoggerConfig { level, ..self }
    }

    /// The same configuration with file logging switched as given.
    pub fn with_file_logging(self, enable: bool) -> (r: LoggerConfig)
        ensures
            r == (LoggerConfig { enable_file_logging: enable, ..self }),
    {
        LoggerConfig { enable_file_logging: enable, ..self }
    }

    /// The same configuration with JSON formatting switched as given.
    pub fn with_json_format(self, enable: bool) -> (r: LoggerConfig)
        ensures
            r == (LoggerConfig { enable_json_format: enable, ..self }),
    {
        LoggerConfig { enable_json_format: enable, ..self }
    }

    /// The same configuration writing log files under `dir`.
    pub fn with_log_dir(self, dir: String) -> (r: LoggerConfig)
        ensures
            r == (LoggerConfig { log_dir: Some(dir), ..self }),
    {
        LoggerConfig { log_dir: Some(dir), ..self }
    }

    /// The same configuration with interactive mode switched as
    /// given: the backend then logs to a file only, never to the
    /// terminal the interface draws on.
    pub fn with_tui_mode(self, enable: bool) -> (r: LoggerConfig)
        ensures
            r == (LoggerConfig { tui_mode: enable, ..self }),
    {
        LoggerConfig { tui_mode: enable, ..self }
    }
}

/// The level each verbosity count selects: informational by default,
/// debug for one, trace from two up.
pub open spec fn spec_level_from_verbosity(verbosity: u8) -> LogLevel {
    if verbosity == 0 {
        LogLevel::Info
    } else if verbosity == 1 {
        LogLevel::Debug
    } else {
        LogLevel::Trace
    }
}

/// Maps a `-v` count to a level.
pub fn level_from_verbosity(verbosity: u8) -> (r: LogLevel)
    ensures
        r == spec_level_from_verbosity(verbosity),
{
    match verbosity {
        0 => LogLevel::Info,
        1 => LogLevel::Debug,
        2 => LogLevel::Trace,
        _ => LogLevel::Trace,
    }
}

} // verus!
