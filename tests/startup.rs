use telemetry_init::sink::UNCOMPRESSED_FILES;
use telemetry_init::{
    disable_on_error, FileLoggerConfig, LogLevel, LoggerConfig, LoggerError, SinkTarget,
    StdoutLoggerConfig,
};

fn file_section(enabled: bool, log_file: Option<&str>) -> FileLoggerConfig {
    FileLoggerConfig {
        enabled,
        log_file: log_file.map(|p| p.to_string()),
        log_size: 1024,
        log_amount: 3,
    }
}

fn config(
    trace_level: LogLevel,
    file: Option<FileLoggerConfig>,
    stdout: Option<bool>,
) -> LoggerConfig {
    LoggerConfig {
        trace_level,
        file,
        stdout: stdout.map(|enabled| StdoutLoggerConfig { enabled }),
        exporter_endpoint: "http://localhost:4317".to_string(),
    }
}

#[test]
fn stdout_only_info_installs_one_guard() {
    let c = config(LogLevel::Info, None, Some(true));
    let plan = c.startup_plan().unwrap();
    assert_eq!(plan.sinks.len(), 1);
    assert!(matches!(plan.sinks[0], SinkTarget::Stdout));
    assert_eq!(plan.level, LogLevel::Info);
    assert!(plan.installs_subscriber());
    assert_eq!(plan.guard_count(), 1);
    assert_eq!(plan.outcome(true), Ok(1));
    assert!(plan.delivers(LogLevel::Info));
    assert!(!plan.delivers(LogLevel::Debug));
}

#[test]
fn empty_file_name_fails_startup() {
    let c = config(LogLevel::Info, Some(file_section(true, Some(""))), None);
    assert_eq!(c.startup_plan().unwrap_err(), LoggerError::NoFileName);
}

#[test]
fn absent_file_name_fails_startup() {
    let c = config(LogLevel::Warn, Some(file_section(true, None)), Some(true));
    assert_eq!(c.startup_plan().unwrap_err(), LoggerError::NoFileName);
}

#[test]
fn no_sections_give_silent_startup() {
    let c = config(LogLevel::Trace, None, None);
    let plan = c.startup_plan().unwrap();
    assert!(plan.sinks.is_empty());
    assert!(!plan.installs_subscriber());
    assert_eq!(plan.guard_count(), 0);
    assert_eq!(plan.outcome(true), Ok(0));
    assert_eq!(plan.outcome(false), Ok(0));
    assert!(!plan.delivers(LogLevel::Error));
}

#[test]
fn disabled_sections_give_silent_startup() {
    let c = config(LogLevel::Info, Some(file_section(false, Some(""))), Some(false));
    let plan = c.startup_plan().unwrap();
    assert!(plan.sinks.is_empty());
    assert_eq!(plan.outcome(false), Ok(0));
}

#[test]
fn both_sinks_in_order_with_one_guard_each() {
    let c = config(LogLevel::Debug, Some(file_section(true, Some("log/app.log"))), Some(true));
    let plan = c.startup_plan().unwrap();
    assert_eq!(plan.sinks.len(), 2);
    match &plan.sinks[0] {
        SinkTarget::File(p) => {
            assert_eq!(p.path, "log/app.log");
            assert_eq!(p.max_bytes, 1024);
            assert_eq!(p.max_files, 3);
            assert_eq!(p.uncompressed_files, 0);
        }
        SinkTarget::Stdout => panic!("the file sink comes first"),
    }
    assert!(matches!(plan.sinks[1], SinkTarget::Stdout));
    assert_eq!(plan.guard_count(), 2);
    assert_eq!(plan.outcome(true), Ok(2));
    assert!(plan.delivers(LogLevel::Debug));
    assert!(!plan.delivers(LogLevel::Trace));
}

#[test]
fn file_only_startup_has_one_sink() {
    let c = config(LogLevel::Info, Some(file_section(true, Some("a.log"))), Some(false));
    let plan = c.startup_plan().unwrap();
    assert_eq!(plan.sinks.len(), 1);
    assert!(matches!(plan.sinks[0], SinkTarget::File(_)));
    assert_eq!(plan.outcome(true), Ok(1));
}

#[test]
fn exporter_failure_fails_valid_startup() {
    let c = config(LogLevel::Info, Some(file_section(true, Some("a.log"))), Some(true));
    let plan = c.startup_plan().unwrap();
    assert_eq!(plan.outcome(false), Err(LoggerError::OLTPInitFailed));
    let c = config(LogLevel::Info, None, Some(true));
    let plan = c.startup_plan().unwrap();
    assert_eq!(plan.outcome(false), Err(LoggerError::OLTPInitFailed));
}

#[test]
fn file_sink_errors() {
    let c = config(LogLevel::Info, None, None);
    assert_eq!(c.file_sink().unwrap_err(), LoggerError::EmptyConfig);
    let c = config(LogLevel::Info, Some(file_section(false, Some("a.log"))), None);
    assert_eq!(c.file_sink().unwrap_err(), LoggerError::NotEnabled);
    let c = config(LogLevel::Info, Some(file_section(true, Some(""))), None);
    assert_eq!(c.file_sink().unwrap_err(), LoggerError::NoFileName);
}

#[test]
fn stdout_sink_errors() {
    let c = config(LogLevel::Info, None, None);
    assert_eq!(c.stdout_sink().unwrap_err(), LoggerError::EmptyConfig);
    let c = config(LogLevel::Info, None, Some(false));
    assert_eq!(c.stdout_sink().unwrap_err(), LoggerError::NotEnabled);
    let c = config(LogLevel::Info, None, Some(true));
    assert!(matches!(c.stdout_sink(), Ok(SinkTarget::Stdout)));
}

#[test]
fn rotation_policy_ignores_enabled_flag() {
    let c = config(LogLevel::Info, Some(file_section(false, Some("x/y.log"))), None);
    let p = c.file_rotate_policy().unwrap();
    assert_eq!(p.path, "x/y.log");
    assert_eq!(p.max_bytes, 1024);
    assert_eq!(p.max_files, 3);
    assert_eq!(p.uncompressed_files, UNCOMPRESSED_FILES);
    assert_eq!(p.uncompressed_files, 0);
}

#[test]
fn rotation_policy_errors() {
    let c = config(LogLevel::Info, None, None);
    assert_eq!(c.file_rotate_policy().unwrap_err(), LoggerError::EmptyConfig);
    let c = config(LogLevel::Info, Some(file_section(true, None)), None);
    assert_eq!(c.file_rotate_policy().unwrap_err(), LoggerError::NoFileName);
    let c = config(LogLevel::Info, Some(file_section(true, Some(""))), None);
    assert_eq!(c.file_rotate_policy().unwrap_err(), LoggerError::NoFileName);
}

#[test]
fn disable_on_error_absorbs_only_absence() {
    assert_eq!(disable_on_error(Ok::<u8, LoggerError>(7)), Ok(Some(7)));
    assert_eq!(disable_on_error(Err::<u8, LoggerError>(LoggerError::EmptyConfig)), Ok(None));
    assert_eq!(disable_on_error(Err::<u8, LoggerError>(LoggerError::NotEnabled)), Ok(None));
    assert_eq!(
        disable_on_error(Err::<u8, LoggerError>(LoggerError::NoFileName)),
        Err(LoggerError::NoFileName)
    );
    assert_eq!(
        disable_on_error(Err::<u8, LoggerError>(LoggerError::OLTPInitFailed)),
        Err(LoggerError::OLTPInitFailed)
    );
}

#[test]
fn level_filter_admits_at_least_as_severe() {
    assert!(LogLevel::Info.admits(LogLevel::Info));
    assert!(LogLevel::Info.admits(LogLevel::Error));
    assert!(!LogLevel::Info.admits(LogLevel::Debug));
    assert!(LogLevel::Trace.admits(LogLevel::Trace));
    assert!(!LogLevel::Error.admits(LogLevel::Warn));
    assert_eq!(LogLevel::Trace.rank(), 0);
    assert_eq!(LogLevel::Error.rank(), 4);
}

#[test]
fn error_messages() {
    assert_eq!(LoggerError::EmptyConfig.message(), "Empty logger configuration");
    assert_eq!(LoggerError::NoFileName.message(), "No filename specified");
    assert_eq!(LoggerError::NotEnabled.message(), "This logger is not enabled");
    assert_eq!(LoggerError::OLTPInitFailed.message(), "OLTP init failed");
}
