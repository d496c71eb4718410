use vstd::prelude::*;

verus! {

/// Severity threshold of the logging sink, from the most to the least verbose.
#[derive(Debug, Clone, Copy, PartialEq, Eq, Structural)]
pub enum LogLevel {
    Trace,
    Debug,
    Info,
    Warn,
    Error,
}

impl LogLevel {
    /// How verbose a threshold at this level is: higher lets more records through.
    pub open spec fn verbosity(self) -> nat {
        match self {
            LogLevel::Trace => 4,
            LogLevel::Debug => 3,
            LogLevel::Info => 2,
            LogLevel::Warn => 1,
            LogLevel::Error => 0,
        }
    }

    /// Whether a sink whose threshold is `self` emits records of severity `record`.
    pub fn admits(&self, record: LogLevel) -> (r: bool)
        ensures
            r == (record.verbosity() <= self.verbosity()),
    {
        let mine: u8 = match self {
            LogLevel::Trace => 4,
            LogLevel::Debug => 3,
            LogLevel::Info => 2,
            LogLevel::Warn => 1,
            LogLevel::Error => 0,
        };
        let theirs: u8 = match record {
            LogLevel::Trace => 4,
            LogLevel::Debug => 3,
            LogLevel::Info => 2,
            LogLevel::Warn => 1,
            LogLevel::Error => 0,
        };
        theirs <= mine
    }
}

/// Where formatted log lines go.
#[derive(Debug, Clone, Copy, PartialEq, Eq, Structural)]
pub enum LogWriter {
    File,
    Stdout,
}

impl LogWriter {
    /// Colour escapes are written to a terminal only, never into files.
    pub fn uses_ansi(&self) -> (r: bool)
        ensures
            r == (*self == LogWriter::Stdout),
    {
        match self {
            LogWriter::File => false,
            LogWriter::Stdout => true,
        }
    }
}

/// The `[logging]` section of the configuration.
pub struct LoggingConfig {
    pub level: LogLevel,
    pub writer: LogWriter,
    pub directory: String,
    pub file_name_prefix: String,
}

/// Timestamps log lines in the configured time zone.
pub struct TzTimer;

} // verus!
