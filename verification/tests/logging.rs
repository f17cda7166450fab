use oobe::logging::config::{default_async_logging, default_force_flush, ConfigSlot, LogConfig, LogLevel, LogType};
use oobe::logging::format::{format_log_message, stderr_line};
use oobe::logging::logger::{log_file_name, shutdown_notice_line, LogRoute, Logger, ShutdownAction};
use oobe::logging::outputs::{output_target, ConsoleOutput, OutputTarget};
use oobe::plugins::paths::TargetOs;
use oobe::telemetry::{
    should_rotate, LogDestinationSpec, LogWriter, LoggerLoader, LoggerSlot, LoggingConfig, MdcContext,
};
use oobe::telemetry::LogLevel as TLevel;

fn config(threshold: LogLevel, async_logging: bool) -> LogConfig {
    let mut c = LogConfig::default_config();
    c.threshold = threshold;
    c.async_logging = async_logging;
    c
}

fn ready_logger(threshold: LogLevel, async_logging: bool) -> Logger {
    let mut l = Logger::new();
    l.init_with_config(config(threshold, async_logging), Ok(()), Ok(())).expect("initialised");
    l
}

#[test]
fn level_and_type_names() {
    assert!(LogLevel::from_config_name("WARNING") == Some(LogLevel::Warn));
    assert!(LogLevel::from_config_name("Debug") == Some(LogLevel::Debug));
    assert!(LogLevel::from_config_name("verbose").is_none());
    assert_eq!(LogLevel::Error.as_str(), "ERROR");
    assert!(LogType::from_config_name("HTTP") == Some(LogType::Http));
    assert!(LogType::from_config_name("syslog").is_none());
    assert!(default_async_logging());
    assert!(!default_force_flush());
}

#[test]
fn log_line_layout() {
    let line = format_log_message("2024-01-01 00:00:00", &LogLevel::Info, "hello", Some("user=1"), "main.rs", 42, "app");
    assert_eq!(line, "2024-01-01 00:00:00 [INFO] [main.rs:42] [app] hello | user=1");
    let line = stderr_line("t", &LogLevel::Warn, "m", None, "f.rs", 0, "x");
    assert_eq!(line, "t [WARN] [f.rs:0] [x] m\n");
}

#[test]
fn logged_file_name_is_last_component() {
    assert_eq!(log_file_name("src/net/main.rs", TargetOs::Other), "main.rs");
    assert_eq!(log_file_name("C:\\work\\lib.rs", TargetOs::Windows), "lib.rs");
    assert_eq!(log_file_name("C:\\work\\lib.rs", TargetOs::Other), "C:\\work\\lib.rs");
    assert_eq!(log_file_name("dir/sub/", TargetOs::Other), "sub");
    assert_eq!(log_file_name("dir/..", TargetOs::Other), "dir/..");
    assert_eq!(log_file_name("dir/.", TargetOs::Other), "dir");
    assert_eq!(log_file_name("", TargetOs::Other), "");
}

#[test]
fn messages_below_threshold_are_skipped() {
    let mut l = ready_logger(LogLevel::Warn, false);
    let e = l.info("quiet", None, "a.rs", 1, "m", "t", TargetOs::Other);
    assert!(e.route == LogRoute::Skip);
    assert_eq!(l.log_counter, 0);
    let e = l.error("loud", None, "a.rs", 1, "m", "t", TargetOs::Other);
    assert!(e.route == LogRoute::Output);
    assert_eq!(e.line, "t [ERROR] [a.rs:1] [m] loud");
    assert_eq!(l.log_counter, 1);
}

#[test]
fn unconfigured_logger_writes_to_stderr() {
    let mut l = Logger::new();
    let e = l.debug("x", None, "a.rs", 1, "m", "t", TargetOs::Other);
    assert!(e.route == LogRoute::Stderr);
    assert!(e.report.is_none());
}

#[test]
fn failed_output_leaves_logger_unchanged() {
    let mut l = Logger::new();
    let r = l.init_with_config(config(LogLevel::Info, true), Err("no file".to_string()), Ok(()));
    assert_eq!(r.err().expect("refused"), "no file");
    assert!(!l.initialized);
    assert!(!l.has_output);
}

#[test]
fn async_route_and_dropped_report_every_hundredth() {
    let mut l = ready_logger(LogLevel::Debug, true);
    let e = l.info("m", None, "a.rs", 1, "mod", "t", TargetOs::Other);
    assert!(e.route == LogRoute::Async);
    l.record_drop();
    l.record_drop();
    assert_eq!(l.get_dropped_log_count(), 2);
    for _ in 1..98 {
        let e = l.info("m", None, "a.rs", 1, "mod", "t", TargetOs::Other);
        assert!(e.report.is_none());
    }
    assert_eq!(l.log_counter, 98);
    let e = l.info("m", None, "a.rs", 1, "mod", "t", TargetOs::Other);
    assert!(e.report.is_none());
    let e = l.info("m", None, "a.rs", 1, "mod", "ts", TargetOs::Other);
    assert_eq!(
        e.report.expect("report"),
        "ts [WARN] [logger.rs:0] [liblogger] WARNING: 2 log messages were dropped due to backpressure"
    );
    assert!(e.report_route == LogRoute::Output);
    assert_eq!(l.get_dropped_log_count(), 0);
}

#[test]
fn shutdown_reports_drops_and_stops_worker() {
    let mut l = ready_logger(LogLevel::Info, true);
    l.record_drop();
    let p = l.shutdown_plan(false, "t");
    assert!(p.action == ShutdownAction::NoRuntime);
    assert_eq!(l.get_dropped_log_count(), 1);
    let p = l.shutdown_plan(true, "t");
    assert!(p.action == ShutdownAction::StopWorker);
    assert!(p.report.is_some());
    assert_eq!(l.get_dropped_log_count(), 0);
    let mut sync = ready_logger(LogLevel::Info, false);
    assert!(sync.shutdown_plan(true, "t").action == ShutdownAction::FlushOutput);
    assert!(Logger::new().shutdown_plan(true, "t").action == ShutdownAction::Done);
}

#[test]
fn output_targets_from_configuration() {
    assert!(matches!(output_target(LogType::Console, None, TargetOs::Other), Ok(OutputTarget::Console)));
    assert_eq!(
        output_target(LogType::File, None, TargetOs::Other).err().expect("uninitialised"),
        "LogConfig not initialized. Call LogConfig::from_file first."
    );
    let mut c = LogConfig::default_config();
    assert_eq!(
        output_target(LogType::File, Some(&c), TargetOs::Other).err().expect("no path"),
        "File path not specified in configuration"
    );
    c.file_path = Some("app.log".to_string());
    c.log_folder = Some("logs".to_string());
    c.force_flush = true;
    match output_target(LogType::File, Some(&c), TargetOs::Other).ok().expect("file") {
        OutputTarget::File { path, create_folder, force_flush } => {
            assert_eq!(path, "logs/app.log");
            assert_eq!(create_folder, Some("logs".to_string()));
            assert!(force_flush);
        },
        _ => panic!("file output"),
    }
    assert_eq!(
        output_target(LogType::Http, Some(&c), TargetOs::Other).err().expect("no endpoint"),
        "HTTP endpoint not specified in configuration"
    );
    c.http_endpoint = Some("http://h/logs".to_string());
    match output_target(LogType::Http, Some(&c), TargetOs::Other).ok().expect("http") {
        OutputTarget::Http { endpoint, timeout_seconds } => {
            assert_eq!(endpoint, "http://h/logs");
            assert_eq!(timeout_seconds, 30);
        },
        _ => panic!("http output"),
    }
    let _console = ConsoleOutput::new();
}

#[test]
fn configuration_parsing_and_first_one_stays() {
    let r = LogConfig::settle_parsed(Err("bad section".to_string()), None);
    assert_eq!(r.err().expect("refused"), "Failed to parse config file: bad section");
    let r = LogConfig::settle_parsed(Err("bad section".to_string()), Some(config(LogLevel::Error, false)));
    assert!(r.ok().expect("bare").threshold == LogLevel::Error);
    let mut slot = ConfigSlot::new();
    assert_eq!(
        LogConfig::get_instance(&slot).err().expect("none"),
        "LogConfig not initialized. Call LogConfig::from_file first."
    );
    slot.get_or_init(&config(LogLevel::Debug, true));
    slot.get_or_init(&config(LogLevel::Error, false));
    let c = LogConfig::get_instance(&slot).ok().expect("set");
    assert!(c.threshold == LogLevel::Debug);
    assert!(c.async_logging);
}

#[test]
fn telemetry_writer_filters_and_builds_entries() {
    let cfg = LoggingConfig {
        log_type: "file".to_string(),
        file_path: Some("t.log".to_string()),
        http_endpoint: None,
        threshold: "WARN".to_string(),
    };
    let w = LoggerLoader::load(&cfg);
    assert!(w.threshold == TLevel::Warn);
    match &w.destination {
        LogDestinationSpec::File { path, max_size } => {
            assert_eq!(path, "t.log");
            assert_eq!(*max_size, 10 * 1024 * 1024);
        },
        LogDestinationSpec::Http(_) => panic!("file destination"),
    }
    assert!(w.log(TLevel::Info, "skip", "ts".to_string(), None).is_none());
    let mut mdc = MdcContext::new();
    LogWriter::set_context(&mut mdc, "session=abc123".to_string());
    let e = w.log(TLevel::Error, "boom", "ts".to_string(), LogWriter::get_context(&mdc)).expect("entry");
    assert_eq!(e.level, "ERROR");
    assert_eq!(e.message, "boom");
    assert_eq!(e.context, Some("session=abc123".to_string()));
    let http = LoggingConfig {
        log_type: "http".to_string(),
        file_path: None,
        http_endpoint: Some("http://localhost:9000/logs".to_string()),
        threshold: "nonsense".to_string(),
    };
    let h = LoggerLoader::load(&http);
    assert!(h.threshold == TLevel::Info);
    let mut slot = LoggerSlot::new();
    assert!(slot.set(h).is_ok());
    assert!(slot.set(w).is_err());
    assert!(LoggerLoader::get_logger(&slot).threshold == TLevel::Info);
    assert!(should_rotate(11, 10));
    assert!(!should_rotate(10, 10));
}

#[test]
fn worker_shutdown_notice() {
    assert_eq!(
        shutdown_notice_line("2024-05-01T00:00:00Z"),
        "2024-05-01T00:00:00Z [INFO] [logger.rs:0] [liblogger] Logger shutdown initiated, ensuring all logs are flushed"
    );
}

#[test]
fn configuration_from_file_cases() {
    let mut slot = ConfigSlot::new();
    let c = LogConfig::from_file(None, &mut slot).ok().expect("defaults");
    assert!(c.log_type == LogType::Console);
    assert!(c.threshold == LogLevel::Info);
    assert!(c.async_logging);
    assert!(slot.value.is_none());
    let e = LogConfig::from_file(Some((Err("expected `=`".to_string()), None)), &mut slot).err().expect("refused");
    assert_eq!(e, "Failed to parse config file: expected `=`");
    assert!(slot.value.is_none());
    let c = LogConfig::from_file(Some((Ok(config(LogLevel::Warn, false)), None)), &mut slot).ok().expect("read");
    assert!(c.threshold == LogLevel::Warn);
    let c = LogConfig::from_file(Some((Err("x".to_string()), Some(config(LogLevel::Error, true)))), &mut slot)
        .ok()
        .expect("bare");
    assert!(c.threshold == LogLevel::Error);
    assert!(slot.value.as_ref().expect("recorded").threshold == LogLevel::Warn);
}

#[test]
fn missing_config_file_runs_on_defaults() {
    let mut slot = ConfigSlot::new();
    let c = LogConfig::from_file(None, &mut slot).ok().expect("defaults");
    let mut logger = Logger::new();
    assert!(logger.init_with_config(c, Ok(()), Ok(())).is_ok());
    let debug = logger.debug("hidden", None, "src/a.rs", 1, "m", "t", TargetOs::Other);
    assert!(debug.route == LogRoute::Skip);
    let info = logger.info("shown", None, "src/a.rs", 2, "m", "t", TargetOs::Other);
    assert!(info.route != LogRoute::Skip);
}
