use vstd::prelude::*;

use crate::config::{FileLoggerConfig, LoggerConfig, LoggerError, file_active, stdout_active};

verus! {

/// Number of most recent rotated files that are left uncompressed: none, so
/// that a file is compressed as soon as it is rotated.
pub const UNCOMPRESSED_FILES: usize = 0;

/// Parameters handed to the rotating file writer.
#[derive(Clone, Debug)]
pub struct RotationPolicy {
    /// Path of the active log file.
    pub path: String,
    /// Largest number of rotated files that are kept; older ones are removed.
    pub max_files: usize,
    /// Size in bytes past which the active file is rotated. The rotating
    /// writer refuses zero.
    pub max_bytes: usize,
    /// Number of most recent rotated files that stay uncompressed; with zero
    /// the file just rotated is compressed too.
    pub uncompressed_files: usize,
}

/// A sink to be built: its writer runs on a background thread of its own.
#[derive(Clone, Debug)]
pub enum SinkTarget {
    /// A rotating file, with its policy.
    File(RotationPolicy),
    /// The process's standard output.
    Stdout,
}

/// `p` carries exactly the settings of the file section `f`, and compresses
/// every rotated file, the one just rotated included.
pub open spec fn policy_for(p: RotationPolicy, f: FileLoggerConfig) -> bool {
    &&& f.log_file matches Some(path)
    &&& p.path@ == path@
    &&& p.max_files == f.log_amount
    &&& p.max_bytes == f.log_size
    &&& p.uncompressed_files == 0
}

/// `t` is the file sink built from the file section `f`.
pub open spec fn targets_file(t: SinkTarget, f: FileLoggerConfig) -> bool {
    t matches SinkTarget::File(p) && policy_for(p, f)
}

/// The error that building the file sink of `c` gives, where it fails.
pub open spec fn file_sink_error(c: LoggerConfig) -> LoggerError {
    match c.file {
        None => LoggerError::EmptyConfig,
        Some(f) => if !f.enabled {
            LoggerError::NotEnabled
        } else {
            LoggerError::NoFileName
        },
    }
}

/// The error that building the standard output sink of `c` gives, where it
/// fails.
pub open spec fn stdout_sink_error(c: LoggerConfig) -> LoggerError {
    if c.stdout is None {
        LoggerError::EmptyConfig
    } else {
        LoggerError::NotEnabled
    }
}

/// Turns the absence of a sink into `None` and passes every other error on.
pub fn disable_on_error<T>(sink: Result<T, LoggerError>) -> (r: Result<Option<T>, LoggerError>)
    ensures
        sink matches Ok(t) ==> r == Ok::<Option<T>, LoggerError>(Some(t)),
        sink matches Err(e) ==> (if e.is_soft() {
            r == Ok::<Option<T>, LoggerError>(None)
        } else {
            r == Err::<Option<T>, LoggerError>(e)
        }),
{
    match sink {
        Ok(t) => Ok(Some(t)),
        Err(e) => match e {
            LoggerError::NotEnabled | LoggerError::EmptyConfig => Ok(None),
            _ => Err(e),
        },
    }
}

impl LoggerConfig {
    /// Rotation policy of the file sink, whether or not it is enabled.
    pub fn file_rotate_policy(&self) -> (r: Result<RotationPolicy, LoggerError>)
        ensures
            match self.file {
                None => r == Err::<RotationPolicy, LoggerError>(LoggerError::EmptyConfig),
                Some(f) => if f.log_file matches Some(p) && p@.len() > 0 {
                    r matches Ok(pol) && policy_for(pol, f)
                } else {
                    r == Err::<RotationPolicy, LoggerError>(LoggerError::NoFileName)
                },
            },
    {
        let config = match &self.file {
            Some(c) => c,
            None => return Err(LoggerError::EmptyConfig),
        };
        let log_file = match &config.log_file {
            Some(p) => p,
            None => return Err(LoggerError::NoFileName),
        };
        if log_file.as_str().is_empty() {
            return Err(LoggerError::NoFileName);
        }
        Ok(
            RotationPolicy {
                path: log_file.clone(),
                max_files: config.log_amount,
                max_bytes: config.log_size,
                uncompressed_files: UNCOMPRESSED_FILES,
            },
        )
    }

    /// The file sink to build: present, enabled and with a path.
    pub fn file_sink(&self) -> (r: Result<SinkTarget, LoggerError>)
        ensures
            r is Ok <==> file_active(*self),
            r matches Ok(t) ==> targets_file(t, self.file->0),
            r matches Err(e) ==> e == file_sink_error(*self),
    {
        match &self.file {
            None => Err(LoggerError::EmptyConfig),
            Some(config) => {
                if config.enabled {
                    match self.file_rotate_policy() {
                        Ok(p) => Ok(SinkTarget::File(p)),
                        Err(e) => Err(e),
                    }
                } else {
                    Err(LoggerError::NotEnabled)
                }
            },
        }
    }

    /// The standard output sink to build: present and enabled.
    pub fn stdout_sink(&self) -> (r: Result<SinkTarget, LoggerError>)
        ensures
            r is Ok <==> stdout_active(*self),
            r matches Ok(t) ==> t is Stdout,
            r matches Err(e) ==> e == stdout_sink_error(*self),
    {
        match &self.stdout {
            None => Err(LoggerError::EmptyConfig),
            Some(config) => {
                if config.enabled {
                    Ok(SinkTarget::Stdout)
                } else {
                    Err(LoggerError::NotEnabled)
                }
            },
        }
    }
}

} // verus!
