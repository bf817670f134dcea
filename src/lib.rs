//! Decision logic of a process-wide logging and tracing bootstrapper.
//!
//! The library decides which log sinks are active, what rotation policy the
//! file sink gets, which construction failures are absorbed and which abort
//! startup, and what the startup returns once the trace exporter has been
//! tried. Opening files, spawning writer threads, building the exporter and
//! installing the subscriber are left to the caller.
pub mod config;
pub mod level;
pub mod sink;
pub mod startup;

pub use config::{FileLoggerConfig, LoggerConfig, LoggerError, StdoutLoggerConfig};
pub use level::LogLevel;
pub use sink::{disable_on_error, RotationPolicy, SinkTarget};
pub use startup::StartupPlan;

