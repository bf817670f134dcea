use vstd::prelude::*;

use crate::level::LogLevel;

verus! {

/// Settings of the rotating file sink.
#[derive(Clone, Debug)]
pub struct FileLoggerConfig {
    pub enabled: bool,
    /// Path of the active log file.
    pub log_file: Option<String>,
    /// Size in bytes past which the active file is rotated.
    pub log_size: usize,
    /// Largest number of rotated files that are kept.
    pub log_amount: usize,
}

/// Settings of the standard output sink.
#[derive(Clone, Copy, Debug, PartialEq, Eq, Structural)]
pub struct StdoutLoggerConfig {
    pub enabled: bool,
}

/// Everything the bootstrapper reads: the sinks, the minimum level and the
/// trace collector's address.
#[derive(Clone, Debug)]
pub struct LoggerConfig {
    pub trace_level: LogLevel,
    pub file: Option<FileLoggerConfig>,
    pub stdout: Option<StdoutLoggerConfig>,
    /// Address of the collector that spans are pushed to.
    pub exporter_endpoint: String,
}

/// Why a sink, or the whole startup, could not be built.
#[derive(Clone, Copy, Debug, PartialEq, Eq, Structural)]
pub enum LoggerError {
    /// The sink's section is absent.
    EmptyConfig,
    /// The file sink is enabled but has no usable path.
    NoFileName,
    /// The sink's section is present but turned off.
    NotEnabled,
    /// The trace exporter could not be built.
    OLTPInitFailed,
}

impl LoggerError {
    /// Human-readable description of the error.
    pub fn message(&self) -> (r: &'static str)
        ensures
            self is EmptyConfig ==> r@ == "Empty logger configuration"@,
            self is NoFileName ==> r@ == "No filename specified"@,
            self is NotEnabled ==> r@ == "This logger is not enabled"@,
            self is OLTPInitFailed ==> r@ == "OLTP init failed"@,
    {
        match self {
            LoggerError::EmptyConfig => {
                proof { reveal_strlit("Empty logger configuration"); }
                "Empty logger configuration"
            },
            LoggerError::NoFileName => {
                proof { reveal_strlit("No filename specified"); }
                "No filename specified"
            },
            LoggerError::NotEnabled => {
                proof { reveal_strlit("This logger is not enabled"); }
                "This logger is not enabled"
            },
            LoggerError::OLTPInitFailed => {
                proof { reveal_strlit("OLTP init failed"); }
                "OLTP init failed"
            },
        }
    }

    /// Whether the error only means that the sink is absent, so that startup
    /// goes on without it.
    pub open spec fn is_soft(self) -> bool {
        self is EmptyConfig || self is NotEnabled
    }
}

/// The file sink is configured, enabled and has a non-empty path.
pub open spec fn file_active(c: LoggerConfig) -> bool {
    &&& c.file matches Some(f)
    &&& f.enabled
    &&& f.log_file matches Some(p)
    &&& p@.len() > 0
}

/// The file sink is enabled but its path is absent or empty.
pub open spec fn file_misconfigured(c: LoggerConfig) -> bool {
    &&& c.file matches Some(f)
    &&& f.enabled
    &&& !(f.log_file matches Some(p) && p@.len() > 0)
}

/// The standard output sink is configured and enabled.
pub open spec fn stdout_active(c: LoggerConfig) -> bool {
    c.stdout matches Some(s) && s.enabled
}

/// How many sinks a startup from `c` builds.
pub open spec fn active_sink_count(c: LoggerConfig) -> nat {
    (if file_active(c) { 1nat } else { 0nat }) + (if stdout_active(c) { 1nat } else { 0nat })
}

} // verus!
