//! The application's settings: what is logged, and how much of it is kept.
//!
//! The settings are plain data. Where they are stored, and when, is the caller's
//! business; the setters here only say which values are taken.

use vstd::prelude::*;
use vstd::string::StringExecFns;
use crate::text::same;

verus! {

/// How much is logged.
#[derive(Debug, Clone, Copy, PartialEq, Eq)]
pub enum LogLevel {
    Trace,
    Debug,
    Info,
    Warn,
    Error,
    Off,
}

/// The file size that is used until another is set, in megabytes.
pub const DEFAULT_FILE_SIZE_MB: u64 = 10;

/// The number of log files that are kept until another is set.
pub const DEFAULT_FILE_COUNT: u32 = 5;

/// The settings of the log.
#[derive(Debug, Clone, Copy, PartialEq, Eq)]
pub struct LoggingConfig {
    pub level: LogLevel,
    pub file_size_mb: u64,
    pub file_count: u32,
}

/// All settings of the application.
#[derive(Debug, Clone, Copy, PartialEq, Eq)]
pub struct AppConfig {
    pub logging: LoggingConfig,
}

/// Why a setting was not taken.
#[derive(Debug, Clone, Copy, PartialEq, Eq)]
pub enum ConfigError {
    InvalidLogLevel,
    InvalidFileSize,
    InvalidFileCount,
}

/// The name of a level, in lower case.
pub open spec fn level_name(level: LogLevel) -> Seq<char> {
    match level {
        LogLevel::Trace => "trace"@,
        LogLevel::Debug => "debug"@,
        LogLevel::Info => "info"@,
        LogLevel::Warn => "warn"@,
        LogLevel::Error => "error"@,
        LogLevel::Off => "off"@,
    }
}

/// The level that `name` names. Only the six names in lower case name a level.
pub open spec fn level_named(name: Seq<char>) -> Option<LogLevel> {
    if name == "trace"@ {
        Some(LogLevel::Trace)
    } else if name == "debug"@ {
        Some(LogLevel::Debug)
    } else if name == "info"@ {
        Some(LogLevel::Info)
    } else if name == "warn"@ {
        Some(LogLevel::Warn)
    } else if name == "error"@ {
        Some(LogLevel::Error)
    } else if name == "off"@ {
        Some(LogLevel::Off)
    } else {
        None
    }
}

/// The settings that are in force until others are set.
pub open spec fn default_logging() -> LoggingConfig {
    LoggingConfig {
        level: LogLevel::Info,
        file_size_mb: DEFAULT_FILE_SIZE_MB,
        file_count: DEFAULT_FILE_COUNT,
    }
}

/// What `std` makes of `text` when asked for its lowercase equivalent.
pub uninterp spec fn lowercase(text: Seq<char>) -> Seq<char>;

/// Calls `str::to_lowercase`. The contract gives the result its name.
#[verifier::external_body]
fn to_lowercase(text: &str) -> (lowered: String)
    ensures
        lowered@ == lowercase(text@),
{
    text.to_lowercase()
}

/// Every level is found again by its name.
pub proof fn level_is_named_by_its_name(level: LogLevel)
    ensures
        level_named(level_name(level)) == Some(level),
{
    reveal_strlit("trace");
    reveal_strlit("debug");
    reveal_strlit("info");
    reveal_strlit("warn");
    reveal_strlit("error");
    reveal_strlit("off");
    assert("trace"@[0] == 't');
    assert("debug"@[0] == 'd');
    assert("info"@[0] == 'i');
    assert("warn"@[0] == 'w');
    assert("error"@[0] == 'e');
    assert("off"@[0] == 'o');
}

impl Default for LogLevel {
    fn default() -> (level: LogLevel)
        ensures
            level == LogLevel::Info,
    {
        LogLevel::Info
    }
}

impl Default for LoggingConfig {
    fn default() -> (logging: LoggingConfig)
        ensures
            logging == default_logging(),
    {
        LoggingConfig {
            level: LogLevel::Info,
            file_size_mb: DEFAULT_FILE_SIZE_MB,
            file_count: DEFAULT_FILE_COUNT,
        }
    }
}

impl Default for AppConfig {
    fn default() -> (config: AppConfig)
        ensures
            config == (AppConfig { logging: default_logging() }),
    {
        AppConfig { logging: LoggingConfig::default() }
    }
}

impl LogLevel {
    /// The name of the level, in lower case.
    pub fn to_string(&self) -> (name: String)
        ensures
            name@ == level_name(*self),
    {
        match self {
            LogLevel::Trace => String::from_str("trace"),
            LogLevel::Debug => String::from_str("debug"),
            LogLevel::Info => String::from_str("info"),
            LogLevel::Warn => String::from_str("warn"),
            LogLevel::Error => String::from_str("error"),
            LogLevel::Off => String::from_str("off"),
        }
    }

    /// The level that `name` names, where `name` is one of the six names in lower case.
    pub fn from_name(name: &str) -> (level: Option<LogLevel>)
        ensures
            level == level_named(name@),
    {
        if same(name, "trace") {
            Some(LogLevel::Trace)
        } else if same(name, "debug") {
            Some(LogLevel::Debug)
        } else if same(name, "info") {
            Some(LogLevel::Info)
        } else if same(name, "warn") {
            Some(LogLevel::Warn)
        } else if same(name, "error") {
            Some(LogLevel::Error)
        } else if same(name, "off") {
            Some(LogLevel::Off)
        } else {
            None
        }
    }

    /// The level that `text` names, in whatever case it is written.
    pub fn parse(text: &str) -> (level: Option<LogLevel>)
        ensures
            level == level_named(lowercase(text@)),
    {
        let lowered = to_lowercase(text);
        LogLevel::from_name(lowered.as_str())
    }
}

impl ConfigError {
    /// What the caller is told.
    pub open spec fn message(self) -> Seq<char> {
        match self {
            ConfigError::InvalidLogLevel => "Invalid log level"@,
            ConfigError::InvalidFileSize => "Log file size must be greater than 0 MB"@,
            ConfigError::InvalidFileCount => "Log file count must be greater than 0"@,
        }
    }

    /// What the caller is told.
    pub fn to_string(&self) -> (text: String)
        ensures
            text@ == self.message(),
    {
        match self {
            ConfigError::InvalidLogLevel => String::from_str("Invalid log level"),
            ConfigError::InvalidFileSize => String::from_str(
                "Log file size must be greater than 0 MB",
            ),
            ConfigError::InvalidFileCount => String::from_str(
                "Log file count must be greater than 0",
            ),
        }
    }
}

impl AppConfig {
    /// Sets the level to the one that `level` names, in whatever case it is written.
    /// Another text is refused, and the settings stay as they are.
    pub fn set_log_level(&mut self, level: &str) -> (outcome: Result<(), ConfigError>)
        ensures
            match level_named(lowercase(level@)) {
                Some(named) => outcome == Ok::<(), ConfigError>(()) && *final(self) == (AppConfig {
                    logging: LoggingConfig { level: named, ..old(self).logging },
                }),
                None => outcome == Err::<(), ConfigError>(ConfigError::InvalidLogLevel)
                    && *final(self) == *old(self),
            },
    {
        match LogLevel::parse(level) {
            Some(named) => {
                self.logging.level = named;
                Ok(())
            },
            None => Err(ConfigError::InvalidLogLevel),
        }
    }

    /// Sets the size at which a log file is full, in megabytes. Zero is refused, and the
    /// settings stay as they are.
    pub fn set_log_file_size(&mut self, size_mb: u64) -> (outcome: Result<(), ConfigError>)
        ensures
            size_mb > 0 ==> outcome == Ok::<(), ConfigError>(()) && *final(self) == (AppConfig {
                logging: LoggingConfig { file_size_mb: size_mb, ..old(self).logging },
            }),
            size_mb == 0 ==> outcome == Err::<(), ConfigError>(ConfigError::InvalidFileSize)
                && *final(self) == *old(self),
    {
        if size_mb == 0 {
            return Err(ConfigError::InvalidFileSize);
        }
        self.logging.file_size_mb = size_mb;
        Ok(())
    }

    /// Sets the number of log files that are kept. Zero is refused, and the settings stay
    /// as they are.
    pub fn set_log_file_count(&mut self, count: u32) -> (outcome: Result<(), ConfigError>)
        ensures
            count > 0 ==> outcome == Ok::<(), ConfigError>(()) && *final(self) == (AppConfig {
                logging: LoggingConfig { file_count: count, ..old(self).logging },
            }),
            count == 0 ==> outcome == Err::<(), ConfigError>(ConfigError::InvalidFileCount)
                && *final(self) == *old(self),
    {
        if count == 0 {
            return Err(ConfigError::InvalidFileCount);
        }
        self.logging.file_count = count;
        Ok(())
    }
}

} // verus!
