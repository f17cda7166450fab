//! The engine's telemetry logger: levels, the configuration it is loaded from,
//! and the writer that filters messages and builds log entries.
use vstd::prelude::*;
use crate::text::{ascii_lower, lemma_lower_eq_ignores_case, lower_eq, lower_eq_str, owned, same_ignoring_case};

verus! {

/// Severity of a telemetry message, from least to most severe.
#[derive(PartialEq, Eq, Structural, Clone, Copy)]
pub enum LogLevel {
    Trace,
    Debug,
    Info,
    Warn,
    Error,
}

impl LogLevel {
    /// Position in the severity order.
    pub open spec fn rank(self) -> nat {
        match self {
            LogLevel::Trace => 0,
            LogLevel::Debug => 1,
            LogLevel::Info => 2,
            LogLevel::Warn => 3,
            LogLevel::Error => 4,
        }
    }

    /// The level's display text.
    pub open spec fn text(self) -> Seq<char> {
        match self {
            LogLevel::Trace => "TRACE"@,
            LogLevel::Debug => "DEBUG"@,
            LogLevel::Info => "INFO"@,
            LogLevel::Warn => "WARN"@,
            LogLevel::Error => "ERROR"@,
        }
    }

    /// The level's display text.
    pub fn as_text(&self) -> (r: &'static str)
        ensures
            r@ == self.text(),
    {
        match self {
            LogLevel::Trace => "TRACE",
            LogLevel::Debug => "DEBUG",
            LogLevel::Info => "INFO",
            LogLevel::Warn => "WARN",
            LogLevel::Error => "ERROR",
        }
    }

    /// Position in the severity order.
    pub fn rank_of(&self) -> (r: u8)
        ensures
            r == self.rank(),
    {
        match self {
            LogLevel::Trace => 0,
            LogLevel::Debug => 1,
            LogLevel::Info => 2,
            LogLevel::Warn => 3,
            LogLevel::Error => 4,
        }
    }

    /// The threshold a configuration names, in any letter case; `Info` for any
    /// other name.
    pub open spec fn threshold_named(s: Seq<char>) -> LogLevel {
        if lower_eq(s, "trace"@) {
            LogLevel::Trace
        } else if lower_eq(s, "debug"@) {
            LogLevel::Debug
        } else if lower_eq(s, "info"@) {
            LogLevel::Info
        } else if lower_eq(s, "warn"@) {
            LogLevel::Warn
        } else if lower_eq(s, "error"@) {
            LogLevel::Error
        } else {
            LogLevel::Info
        }
    }
}

/// One log record as destinations receive it.
pub struct LogEntry {
    pub timestamp: String,
    pub level: String,
    pub message: String,
    pub context: Option<String>,
}

/// The `[logging]` section of the telemetry configuration.
pub struct LoggingConfig {
    /// `"file"` or `"http"`.
    pub log_type: String,
    pub file_path: Option<String>,
    pub http_endpoint: Option<String>,
    /// Threshold name, such as `debug` or `info`.
    pub threshold: String,
}

/// The `[metrics]` section of the telemetry configuration.
pub struct MetricsConfig {
    /// `"file"` or `"http"`.
    pub metrics_type: String,
    pub file_path: Option<String>,
    pub http_endpoint: Option<String>,
}

/// The telemetry configuration file.
pub struct TelemetryConfig {
    pub logging: LoggingConfig,
    pub metrics: MetricsConfig,
}

/// Size at which log files rotate, in bytes.
pub const MAX_LOG_FILE_BYTES: u64 = 10485760;

/// Where a writer sends its entries.
pub enum LogDestinationSpec {
    /// POST each entry as JSON to this endpoint.
    Http(String),
    /// Append each entry as a JSON line to this file, rotating past `max_size` bytes.
    File { path: String, max_size: u64 },
}

/// Filters messages by threshold and builds entries for its destination.
pub struct LogWriter {
    pub threshold: LogLevel,
    pub destination: LogDestinationSpec,
}

impl LogWriter {
    /// A writer with this threshold and destination.
    pub fn new(threshold: LogLevel, destination: LogDestinationSpec) -> (r: LogWriter)
        ensures
            r.threshold == threshold,
            r.destination == destination,
    {
        LogWriter { threshold, destination }
    }

    /// The entry for a message at `level`, stamped `timestamp` and carrying the
    /// current context; `None` when the level is below the threshold.
    pub fn log(&self, level: LogLevel, message: &str, timestamp: String, context: Option<String>) -> (r: Option<LogEntry>)
        ensures
            level.rank() < self.threshold.rank() ==> r is None,
            level.rank() >= self.threshold.rank() ==> (r matches Some(e) && e.timestamp == timestamp && e.level@
                == level.text() && e.message@ == message@ && e.context == context),
    {
        if level.rank_of() < self.threshold.rank_of() {
            return None;
        }
        Some(LogEntry { timestamp, level: owned(level.as_text()), message: owned(message), context })
    }
}

/// The context attached to the entries a thread logs (its MDC).
pub struct MdcContext {
    pub value: Option<String>,
}

impl MdcContext {
    /// No context set.
    pub fn new() -> (r: MdcContext)
        ensures
            r.value is None,
    {
        MdcContext { value: None }
    }
}

impl LogWriter {
    /// Sets the context later entries carry.
    pub fn set_context(mdc: &mut MdcContext, context: String)
        ensures
            final(mdc).value == Some(context),
    {
        mdc.value = Some(context);
    }

    /// The context entries carry now.
    pub fn get_context(mdc: &MdcContext) -> (r: Option<String>)
        ensures
            r == mdc.value,
    {
        match &mdc.value {
            Some(c) => Some(c.clone()),
            None => None,
        }
    }
}

/// Holds the process-wide telemetry logger once it is loaded.
pub struct LoggerSlot {
    pub logger: Option<LogWriter>,
}

/// Builds telemetry loggers from configuration.
pub struct LoggerLoader;

impl LoggerLoader {
    /// The writer a `[logging]` section describes. The type must be `http` with an
    /// endpoint or `file` with a path.
    pub fn load(config: &LoggingConfig) -> (r: LogWriter)
        requires
            (config.log_type@ == "http"@ && config.http_endpoint is Some) || (config.log_type@ == "file"@
                && config.file_path is Some),
        ensures
            r.threshold == LogLevel::threshold_named(config.threshold@),
            config.log_type@ == "http"@ ==> (r.destination matches LogDestinationSpec::Http(e) && e
                == config.http_endpoint->0),
            config.log_type@ == "file"@ ==> (r.destination matches LogDestinationSpec::File { path, max_size } && path
                == config.file_path->0 && max_size == MAX_LOG_FILE_BYTES),
    {
        proof {
            reveal_strlit("http");
            reveal_strlit("file");
            assert("http"@[0] == 'h' && "file"@[0] == 'f');
            assert("http"@ != "file"@);
        }
        let destination = if crate::text::str_eq(config.log_type.as_str(), "http") {
            match &config.http_endpoint {
                Some(e) => LogDestinationSpec::Http(e.clone()),
                None => vstd::pervasive::unreached(),
            }
        } else {
            match &config.file_path {
                Some(p) => LogDestinationSpec::File { path: p.clone(), max_size: MAX_LOG_FILE_BYTES },
                None => vstd::pervasive::unreached(),
            }
        };
        let t = config.threshold.as_str();
        let threshold = if lower_eq_str(t, "trace") {
            LogLevel::Trace
        } else if lower_eq_str(t, "debug") {
            LogLevel::Debug
        } else if lower_eq_str(t, "info") {
            LogLevel::Info
        } else if lower_eq_str(t, "warn") {
            LogLevel::Warn
        } else if lower_eq_str(t, "error") {
            LogLevel::Error
        } else {
            LogLevel::Info
        };
        LogWriter::new(threshold, destination)
    }
}

impl LoggerSlot {
    /// No logger loaded yet.
    pub fn new() -> (r: LoggerSlot)
        ensures
            r.logger is None,
    {
        LoggerSlot { logger: None }
    }

    /// Installs `logger` unless one is installed already, in which case it is
    /// handed back.
    pub fn set(&mut self, logger: LogWriter) -> (r: Result<(), LogWriter>)
        ensures
            old(self).logger is None ==> r is Ok && final(self).logger == Some(logger),
            old(self).logger is Some ==> r == Err::<(), LogWriter>(logger) && final(self).logger == old(self).logger,
    {
        if self.logger.is_some() {
            return Err(logger);
        }
        self.logger = Some(logger);
        Ok(())
    }
}

impl LoggerLoader {
    /// The installed logger; one must have been installed.
    pub fn get_logger(slot: &LoggerSlot) -> (r: &LogWriter)
        requires
            slot.logger is Some,
        ensures
            *r == slot.logger->0,
    {
        match &slot.logger {
            Some(w) => w,
            None => vstd::pervasive::unreached(),
        }
    }
}

/// Whether a log file of `size` bytes is to be rotated before the next write.
pub fn should_rotate(size: u64, max_size: u64) -> (r: bool)
    ensures
        r == (size > max_size),
{
    size > max_size
}

/// The telemetry logger is installed once: after the first successful `set`,
/// later attempts are handed back and every `get_logger` returns that first
/// logger. `slots[i + 1]` is `slots[i]` after the attempt to set `writers[i]`.
pub proof fn law_logger_installed_once(writers: Seq<LogWriter>, slots: Seq<LoggerSlot>)
    requires
        slots.len() == writers.len() + 1,
        slots[0].logger is None,
        forall|i: int| 0 <= i < writers.len() ==> (#[trigger] slots[i + 1]).logger == (match slots[i].logger {
            Some(w) => Some(w),
            None => Some(writers[i]),
        }),
    ensures
        forall|i: int| 1 <= i < slots.len() ==> (#[trigger] slots[i]).logger == Some(writers[0]),
{
    assert forall|i: int| 1 <= i < slots.len() implies (#[trigger] slots[i]).logger == Some(writers[0]) by {
        lemma_installed_stays(writers, slots, i);
    }
}

proof fn lemma_installed_stays(writers: Seq<LogWriter>, slots: Seq<LoggerSlot>, i: int)
    requires
        slots.len() == writers.len() + 1,
        slots[0].logger is None,
        forall|i: int| 0 <= i < writers.len() ==> (#[trigger] slots[i + 1]).logger == (match slots[i].logger {
            Some(w) => Some(w),
            None => Some(writers[i]),
        }),
        1 <= i < slots.len(),
    ensures
        slots[i].logger == Some(writers[0]),
    decreases i,
{
    if i == 1 {
        assert(slots[0int + 1].logger == Some(writers[0]));
    } else {
        lemma_installed_stays(writers, slots, i - 1);
        assert(slots[(i - 1) + 1].logger == Some(writers[0]));
    }
}

/// The levels from least to most severe: trace, debug, info, warn, error.
pub open spec fn severity_order() -> Seq<LogLevel> {
    seq![LogLevel::Trace, LogLevel::Debug, LogLevel::Info, LogLevel::Warn, LogLevel::Error]
}

/// The writer's threshold comparison follows the severity order: of two
/// levels, the one further along the order ranks strictly higher.
pub proof fn law_rank_follows_severity(i: int, j: int)
    requires
        0 <= i < j < 5,
    ensures
        severity_order()[i].rank() < severity_order()[j].rank(),
{
}

/// Each level is loaded from its own name, in any letter case: a configuration
/// whose threshold is a level's display text, in upper, lower or mixed case,
/// gets exactly that level as its threshold.
pub proof fn law_threshold_names_round_trip(l: LogLevel, s: Seq<char>)
    requires
        same_ignoring_case(s, l.text()),
    ensures
        LogLevel::threshold_named(l.text()) == l,
        LogLevel::threshold_named(s) == l,
{
    lemma_lower_eq_ignores_case(s, l.text(), "trace"@);
    lemma_lower_eq_ignores_case(s, l.text(), "debug"@);
    lemma_lower_eq_ignores_case(s, l.text(), "info"@);
    lemma_lower_eq_ignores_case(s, l.text(), "warn"@);
    lemma_lower_eq_ignores_case(s, l.text(), "error"@);
    reveal_strlit("TRACE");
    reveal_strlit("DEBUG");
    reveal_strlit("INFO");
    reveal_strlit("WARN");
    reveal_strlit("ERROR");
    reveal_strlit("trace");
    reveal_strlit("debug");
    reveal_strlit("info");
    reveal_strlit("warn");
    reveal_strlit("error");
    let t = l.text();
    match l {
        LogLevel::Trace => {
            assert(lower_eq(t, "trace"@)) by {
                assert(t[0] == 'T' && t[1] == 'R' && t[2] == 'A' && t[3] == 'C' && t[4] == 'E');
            }
        },
        LogLevel::Debug => {
            assert(!lower_eq(t, "trace"@)) by {
                assert(t[0] == 'D');
                assert(ascii_lower(t[0]) == 'd');
            }
            assert(lower_eq(t, "debug"@)) by {
                assert(t[0] == 'D' && t[1] == 'E' && t[2] == 'B' && t[3] == 'U' && t[4] == 'G');
            }
        },
        LogLevel::Info => {
            assert(lower_eq(t, "info"@)) by {
                assert(t[0] == 'I' && t[1] == 'N' && t[2] == 'F' && t[3] == 'O');
            }
        },
        LogLevel::Warn => {
            assert(!lower_eq(t, "info"@)) by {
                assert(ascii_lower(t[0]) == 'w');
            }
            assert(lower_eq(t, "warn"@)) by {
                assert(t[0] == 'W' && t[1] == 'A' && t[2] == 'R' && t[3] == 'N');
            }
        },
        LogLevel::Error => {
            assert(!lower_eq(t, "trace"@)) by {
                assert(ascii_lower(t[0]) == 'e');
            }
            assert(!lower_eq(t, "debug"@)) by {
                assert(ascii_lower(t[0]) == 'e');
            }
            assert(lower_eq(t, "error"@)) by {
                assert(t[0] == 'E' && t[1] == 'R' && t[2] == 'R' && t[3] == 'O' && t[4] == 'R');
            }
        },
    }
}

} // verus!
