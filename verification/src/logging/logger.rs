//! The logger's decisions: whether a message is recorded, whether it goes to the
//! background writer or is written at once, and when dropped messages are reported.
//!
//! The host owns the outputs and the background channel; it tells the logger
//! which of them it could set up, and carries out the routes the logger picks.
use vstd::prelude::*;
use crate::text::{chars_of, decimal, owned, push_decimal, push_str, string_of};
use crate::plugins::paths::{is_sep, TargetOs};
use crate::logging::config::{is_default_config, law_rank_follows_severity, less_severe, LogConfig, LogLevel, LogType};
use crate::logging::format::{format_log_message, log_line, opt_view};

verus! {

/// The start of the last segment of `v` (the text after its last separator).
pub open spec fn segment_start(v: Seq<char>, os: TargetOs) -> int
    decreases v.len(),
{
    if v.len() == 0 {
        0
    } else if is_sep(v.last(), os) {
        v.len() as int
    } else {
        segment_start(v.drop_last(), os)
    }
}

/// Basic facts about `segment_start`.
pub proof fn lemma_segment_start(v: Seq<char>, os: TargetOs)
    ensures
        0 <= segment_start(v, os) <= v.len(),
        v.len() > 0 && !is_sep(v.last(), os) ==> segment_start(v, os) < v.len(),
        segment_start(v, os) > 0 ==> is_sep(v[segment_start(v, os) - 1], os),
        forall|j: int| segment_start(v, os) <= j < v.len() ==> !is_sep(#[trigger] v[j], os),
    decreases v.len(),
{
    if v.len() > 0 && !is_sep(v.last(), os) {
        lemma_segment_start(v.drop_last(), os);
        assert forall|j: int| segment_start(v, os) <= j < v.len() implies !is_sep(#[trigger] v[j], os) by {
            if j < v.len() - 1 {
                assert(v.drop_last()[j] == v[j]);
            }
        }
    }
}

/// The final component of a path, as `Path::file_name` gives it: trailing
/// separators and `.` components are passed over, and a path that ends in `..`,
/// or has no normal component, has none.
pub open spec fn path_file_name(v: Seq<char>, os: TargetOs) -> Option<Seq<char>>
    decreases v.len(),
{
    if v.len() == 0 {
        None
    } else if is_sep(v.last(), os) {
        path_file_name(v.drop_last(), os)
    } else {
        let k = segment_start(v, os);
        proof {
            lemma_segment_start(v, os);
        }
        let seg = v.subrange(k, v.len() as int);
        if seg == seq!['.'] {
            if k == 0 {
                None
            } else {
                path_file_name(v.subrange(0, k), os)
            }
        } else if seg == seq!['.', '.'] {
            None
        } else {
            Some(seg)
        }
    }
}

/// The file name logged for a source path: its final component, or the whole
/// path when it has none.
pub open spec fn logged_file_name(file: Seq<char>, os: TargetOs) -> Seq<char> {
    match path_file_name(file, os) {
        Some(n) => n,
        None => file,
    }
}

fn sep_char(c: char, os: TargetOs) -> (r: bool)
    ensures
        r == is_sep(c, os),
{
    c == '/' || (os == TargetOs::Windows && c == '\\')
}

/// The file name logged for a source path.
pub fn log_file_name(file: &str, os: TargetOs) -> (r: String)
    ensures
        r@ == logged_file_name(file@, os),
{
    let v = chars_of(file);
    let n = v.len();
    let mut end: usize = n;
    assert(v@.subrange(0, n as int) =~= v@);
    loop
        invariant
            n == v@.len(),
            v@ == file@,
            end <= n,
            path_file_name(file@, os) == path_file_name(v@.subrange(0, end as int), os),
        decreases end,
    {
        let ghost end0 = end;
        while end > 0 && sep_char(v[end - 1], os)
            invariant
                n == v@.len(),
                v@ == file@,
                end <= n,
                end <= end0,
                path_file_name(file@, os) == path_file_name(v@.subrange(0, end as int), os),
            decreases end,
        {
            assert(v@.subrange(0, end as int).drop_last() =~= v@.subrange(0, end - 1));
            end -= 1;
        }
        if end == 0 {
            return owned(file);
        }
        let ghost w = v@.subrange(0, end as int);
        let mut start: usize = end;
        assert(!is_sep(v@[end - 1], os));
        while start > 0 && !sep_char(v[start - 1], os)
            invariant
                n == v@.len(),
                start <= end <= n,
                0 < end,
                start == end ==> !is_sep(v@[end - 1], os),
                w == v@.subrange(0, end as int),
                forall|j: int| start <= j < end ==> !is_sep(#[trigger] v@[j], os),
            decreases start,
        {
            start -= 1;
        }
        proof {
            lemma_segment_start(w, os);
            lemma_segment_is(w, os, start as int);
        }
        assert(start < end);
        let len = end - start;
        let ghost seg = w.subrange(start as int, end as int);
        assert(seg.len() == len);
        assert(forall|j: int| 0 <= j < len ==> #[trigger] seg[j] == v@[start + j]);
        let is_dot = len == 1 && v[start] == '.';
        let is_dotdot = len == 2 && v[start] == '.' && v[start + 1] == '.';
        assert(is_dot == (seg == seq!['.'])) by {
            if seg == seq!['.'] {
                assert(seg[0] == v@[start as int]);
            } else if is_dot {
                assert(seg =~= seq!['.']);
            }
        }
        assert(is_dotdot == (seg == seq!['.', '.'])) by {
            if seg == seq!['.', '.'] {
                assert(seg[0] == v@[start as int] && seg[1] == v@[start + 1]);
            } else if is_dotdot {
                assert(seg =~= seq!['.', '.']);
            }
        }
        if is_dot {
            if start == 0 {
                return owned(file);
            }
            assert(w.subrange(0, start as int) =~= v@.subrange(0, start as int));
            end = start;
        } else if is_dotdot {
            return owned(file);
        } else {
            assert(w.subrange(start as int, end as int) =~= v@.subrange(start as int, end as int));
            return string_of(v.as_slice(), start, end);
        }
    }
}

proof fn lemma_segment_is(w: Seq<char>, os: TargetOs, start: int)
    requires
        0 <= start <= w.len(),
        forall|j: int| start <= j < w.len() ==> !is_sep(#[trigger] w[j], os),
        start == 0 || is_sep(w[start - 1], os),
    ensures
        segment_start(w, os) == start,
    decreases w.len(),
{
    if w.len() > 0 && start < w.len() {
        assert(!is_sep(w.last(), os));
        lemma_segment_is(w.drop_last(), os, start);
    }
}

/// How a message is to be written.
#[derive(PartialEq, Eq, Structural, Clone, Copy)]
pub enum LogRoute {
    /// Below the threshold: not recorded.
    Skip,
    /// Hand to the background writer; if the channel refuses it, call
    /// `record_drop` and write it at once.
    Async,
    /// Write it at once to the configured output.
    Output,
    /// Write it at once to standard error (no output is configured), with a
    /// trailing newline.
    Stderr,
}

/// What the host does for one message: first write `report` (if any) the way
/// `report_route` says, then write `line` along `route`.
pub struct LogEmission {
    pub report: Option<String>,
    pub report_route: LogRoute,
    pub line: String,
    pub route: LogRoute,
}

/// What the host does to shut the logger down.
#[derive(PartialEq, Eq, Structural, Clone, Copy)]
pub enum ShutdownAction {
    /// No background runtime was ever started: nothing to do.
    NoRuntime,
    /// Ask the background writer to flush and stop, and wait for it.
    StopWorker,
    /// Flush the configured output by writing an empty message.
    FlushOutput,
    /// Nothing is configured: done.
    Done,
}

/// Shutting down: first write `report` (if any) along `report_route`, then act.
pub struct ShutdownPlan {
    pub report: Option<String>,
    pub report_route: LogRoute,
    pub action: ShutdownAction,
}

/// The logger's state.
pub struct Logger {
    /// A configuration was applied successfully.
    pub initialized: bool,
    /// The configuration applied, if any.
    pub config: Option<LogConfig>,
    /// The host set up an output for immediate writes.
    pub has_output: bool,
    /// The host set up the channel to the background writer.
    pub has_async_channel: bool,
    /// Messages go to the background writer.
    pub async_enabled: bool,
    /// Messages dropped since the last report.
    pub dropped_logs: u64,
    /// Messages recorded so far (wrapping).
    pub log_counter: u64,
}

/// The text reporting `n` dropped messages.
pub open spec fn dropped_report(n: u64) -> Seq<char> {
    "WARNING: "@ + decimal(n as nat) + " log messages were dropped due to backpressure"@
}

/// The immediate route the logger's state leads to.
pub open spec fn immediate_route(has_output: bool) -> LogRoute {
    if has_output {
        LogRoute::Output
    } else {
        LogRoute::Stderr
    }
}

/// The line reporting `n` dropped messages, stamped `timestamp`.
pub open spec fn report_line(timestamp: Seq<char>, n: u64) -> Seq<char> {
    log_line(timestamp, LogLevel::Warn, dropped_report(n), None, "logger.rs"@, 0, "liblogger"@)
}

/// The line the background writer writes last, when it is asked to stop.
pub open spec fn shutdown_notice(timestamp: Seq<char>) -> Seq<char> {
    log_line(
        timestamp,
        LogLevel::Info,
        "Logger shutdown initiated, ensuring all logs are flushed"@,
        None,
        "logger.rs"@,
        0,
        "liblogger"@,
    )
}

/// The line the background writer writes last, stamped `timestamp`.
pub fn shutdown_notice_line(timestamp: &str) -> (r: String)
    ensures
        r@ == shutdown_notice(timestamp@),
{
    format_log_message(
        timestamp,
        &LogLevel::Info,
        "Logger shutdown initiated, ensuring all logs are flushed",
        None,
        "logger.rs",
        0,
        "liblogger",
    )
}

/// `after` and `r` are what applying `config` makes of `before`, given whether
/// the host could create the immediate output (`sync_output`) and the
/// background writer's output (`async_output`): a failed immediate output
/// leaves the logger unchanged; a failed background output, when one is
/// wanted, keeps the old configuration; otherwise the configuration is
/// applied.
pub open spec fn started_with(
    before: Logger,
    after: Logger,
    config: LogConfig,
    sync_output: Result<(), String>,
    async_output: Result<(), String>,
    r: Result<(), String>,
) -> bool {
    &&& after.dropped_logs == before.dropped_logs
    &&& after.log_counter == before.log_counter
    &&& match sync_output {
        Err(e) => r == Err::<(), String>(e) && after == before,
        Ok(()) => {
            &&& after.has_output
            &&& after.has_async_channel == (before.has_async_channel || config.async_logging)
            &&& if config.async_logging && async_output is Err {
                &&& r == async_output
                &&& after.config == before.config
                &&& after.initialized == before.initialized
                &&& after.async_enabled == before.async_enabled
            } else {
                &&& r is Ok
                &&& after.config == Some(config)
                &&& after.initialized
                &&& after.async_enabled == config.async_logging
            }
        },
    }
}

impl Logger {
    /// A logger with nothing configured.
    pub fn new() -> (r: Logger)
        ensures
            !r.initialized,
            r.config is None,
            !r.has_output,
            !r.has_async_channel,
            !r.async_enabled,
            r.dropped_logs == 0,
            r.log_counter == 0,
    {
        Logger {
            initialized: false,
            config: None,
            has_output: false,
            has_async_channel: false,
            async_enabled: false,
            dropped_logs: 0,
            log_counter: 0,
        }
    }

    /// Applies `config`. `sync_output` is whether the host could create the
    /// immediate output; `async_output` whether it could create the background
    /// writer's output (asked only when `config.async_logging`).
    pub fn init_with_config(
        &mut self,
        config: LogConfig,
        sync_output: Result<(), String>,
        async_output: Result<(), String>,
    ) -> (r: Result<(), String>)
        ensures
            started_with(*old(self), *final(self), config, sync_output, async_output, r),
    {
        match sync_output {
            Err(e) => {
                return Err(e);
            },
            Ok(()) => {},
        }
        self.has_output = true;
        if config.async_logging {
            self.has_async_channel = true;
            match async_output {
                Err(e) => {
                    return Err(e);
                },
                Ok(()) => {},
            }
        }
        self.async_enabled = config.async_logging;
        self.config = Some(config);
        self.initialized = true;
        Ok(())
    }

    /// Decides what to do with a message of `level`, logged from source path
    /// `file` at `timestamp`.
    pub fn plan_log(
        &mut self,
        level: LogLevel,
        message: &str,
        context: Option<&str>,
        file: &str,
        line: u32,
        module: &str,
        timestamp: &str,
        os: TargetOs,
    ) -> (r: LogEmission)
        ensures
            r.line@ == log_line(timestamp@, level, message@, opt_view(context), logged_file_name(file@, os), line, module@),
            r.report_route == immediate_route(old(self).has_output),
            final(self).initialized == old(self).initialized,
            final(self).config == old(self).config,
            final(self).has_output == old(self).has_output,
            final(self).has_async_channel == old(self).has_async_channel,
            final(self).async_enabled == old(self).async_enabled,
            match old(self).config {
                None => {
                    &&& r.route == immediate_route(old(self).has_output)
                    &&& r.report is None
                    &&& final(self).dropped_logs == old(self).dropped_logs
                    &&& final(self).log_counter == old(self).log_counter
                },
                Some(c) => if level.rank() < c.threshold.rank() {
                    &&& r.route == LogRoute::Skip
                    &&& r.report is None
                    &&& final(self).dropped_logs == old(self).dropped_logs
                    &&& final(self).log_counter == old(self).log_counter
                } else {
                    let count = if old(self).log_counter == u64::MAX { 0u64 } else { (old(self).log_counter + 1) as u64 };
                    &&& final(self).log_counter == count
                    &&& if count % 100 == 0 && old(self).dropped_logs > 0 {
                        &&& final(self).dropped_logs == 0
                        &&& r.report matches Some(t) && t@ == report_line(timestamp@, old(self).dropped_logs)
                    } else {
                        &&& final(self).dropped_logs == old(self).dropped_logs
                        &&& r.report is None
                    }
                    &&& r.route == (if old(self).async_enabled && old(self).has_async_channel {
                        LogRoute::Async
                    } else {
                        immediate_route(old(self).has_output)
                    })
                },
            },
    {
        let fname = log_file_name(file, os);
        let text = format_log_message(timestamp, &level, message, context, fname.as_str(), line, module);
        let immediate = if self.has_output {
            LogRoute::Output
        } else {
            LogRoute::Stderr
        };
        let threshold = match &self.config {
            None => {
                return LogEmission { report: None, report_route: immediate, line: text, route: immediate };
            },
            Some(c) => c.threshold,
        };
        if level.rank_of() < threshold.rank_of() {
            return LogEmission { report: None, report_route: immediate, line: text, route: LogRoute::Skip };
        }
        let count = if self.log_counter == u64::MAX {
            0
        } else {
            self.log_counter + 1
        };
        self.log_counter = count;
        let report = if count % 100 == 0 && self.dropped_logs > 0 {
            let n = self.dropped_logs;
            self.dropped_logs = 0;
            Some(Self::report_text(timestamp, n))
        } else {
            None
        };
        let route = if self.async_enabled && self.has_async_channel {
            LogRoute::Async
        } else {
            immediate
        };
        LogEmission { report, report_route: immediate, line: text, route }
    }

    fn report_text(timestamp: &str, n: u64) -> (r: String)
        ensures
            r@ == report_line(timestamp@, n),
    {
        let mut msg = owned("WARNING: ");
        push_decimal(&mut msg, n);
        push_str(&mut msg, " log messages were dropped due to backpressure");
        format_log_message(timestamp, &LogLevel::Warn, msg.as_str(), None, "logger.rs", 0, "liblogger")
    }

    /// The background channel refused a message: count it as dropped (wrapping).
    pub fn record_drop(&mut self)
        ensures
            final(self).dropped_logs == (if old(self).dropped_logs == u64::MAX { 0u64 } else { (old(self).dropped_logs
                + 1) as u64 }),
            final(self).log_counter == old(self).log_counter,
            final(self).config == old(self).config,
            final(self).has_output == old(self).has_output,
            final(self).has_async_channel == old(self).has_async_channel,
            final(self).async_enabled == old(self).async_enabled,
            final(self).initialized == old(self).initialized,
    {
        self.dropped_logs = if self.dropped_logs == u64::MAX {
            0
        } else {
            self.dropped_logs + 1
        };
    }

    /// The number of messages dropped since the last report.
    pub fn get_dropped_log_count(&self) -> (r: u64)
        ensures
            r == self.dropped_logs,
    {
        self.dropped_logs
    }

    /// Decides how to shut down. `runtime_started` tells whether the background
    /// runtime was ever started; only then are dropped messages reported.
    pub fn shutdown_plan(&mut self, runtime_started: bool, timestamp: &str) -> (r: ShutdownPlan)
        ensures
            r.report_route == immediate_route(old(self).has_output),
            !runtime_started ==> r.action == ShutdownAction::NoRuntime && r.report is None && *final(self)
                == *old(self),
            runtime_started ==> {
                &&& final(self).dropped_logs == 0
                &&& final(self).log_counter == old(self).log_counter
                &&& final(self).config == old(self).config
                &&& final(self).has_output == old(self).has_output
                &&& (if old(self).dropped_logs > 0 {
                    r.report matches Some(t) && t@ == report_line(timestamp@, old(self).dropped_logs)
                } else {
                    r.report is None
                })
                &&& r.action == (if old(self).async_enabled && old(self).has_async_channel {
                    ShutdownAction::StopWorker
                } else if old(self).has_output {
                    ShutdownAction::FlushOutput
                } else {
                    ShutdownAction::Done
                })
            },
    {
        let immediate = if self.has_output {
            LogRoute::Output
        } else {
            LogRoute::Stderr
        };
        if !runtime_started {
            return ShutdownPlan { report: None, report_route: immediate, action: ShutdownAction::NoRuntime };
        }
        let report = if self.dropped_logs > 0 {
            let n = self.dropped_logs;
            self.dropped_logs = 0;
            Some(Self::report_text(timestamp, n))
        } else {
            None
        };
        let action = if self.async_enabled && self.has_async_channel {
            ShutdownAction::StopWorker
        } else if self.has_output {
            ShutdownAction::FlushOutput
        } else {
            ShutdownAction::Done
        };
        ShutdownPlan { report, report_route: immediate, action }
    }

    /// Decides on a `Debug` message.
    pub fn debug(
        &mut self,
        message: &str,
        context: Option<&str>,
        file: &str,
        line: u32,
        module: &str,
        timestamp: &str,
        os: TargetOs,
    ) -> (r: LogEmission)
        ensures
            logged_as(*old(self), *final(self), r, LogLevel::Debug, message@, opt_view(context), file@, line, module@, timestamp@, os),
    {
        self.plan_log(LogLevel::Debug, message, context, file, line, module, timestamp, os)
    }

    /// Decides on an `Info` message.
    pub fn info(
        &mut self,
        message: &str,
        context: Option<&str>,
        file: &str,
        line: u32,
        module: &str,
        timestamp: &str,
        os: TargetOs,
    ) -> (r: LogEmission)
        ensures
            logged_as(*old(self), *final(self), r, LogLevel::Info, message@, opt_view(context), file@, line, module@, timestamp@, os),
    {
        self.plan_log(LogLevel::Info, message, context, file, line, module, timestamp, os)
    }

    /// Decides on a `Warn` message.
    pub fn warn(
        &mut self,
        message: &str,
        context: Option<&str>,
        file: &str,
        line: u32,
        module: &str,
        timestamp: &str,
        os: TargetOs,
    ) -> (r: LogEmission)
        ensures
            logged_as(*old(self), *final(self), r, LogLevel::Warn, message@, opt_view(context), file@, line, module@, timestamp@, os),
    {
        self.plan_log(LogLevel::Warn, message, context, file, line, module, timestamp, os)
    }

    /// Decides on an `Error` message.
    pub fn error(
        &mut self,
        message: &str,
        context: Option<&str>,
        file: &str,
        line: u32,
        module: &str,
        timestamp: &str,
        os: TargetOs,
    ) -> (r: LogEmission)
        ensures
            logged_as(*old(self), *final(self), r, LogLevel::Error, message@, opt_view(context), file@, line, module@, timestamp@, os),
    {
        self.plan_log(LogLevel::Error, message, context, file, line, module, timestamp, os)
    }
}

/// `after` and `r` are what `plan_log` makes of `before` for this message.
pub open spec fn logged_as(
    before: Logger,
    after: Logger,
    r: LogEmission,
    level: LogLevel,
    message: Seq<char>,
    context: Option<Seq<char>>,
    file: Seq<char>,
    line: u32,
    module: Seq<char>,
    timestamp: Seq<char>,
    os: TargetOs,
) -> bool {
    &&& r.line@ == log_line(timestamp, level, message, context, logged_file_name(file, os), line, module)
    &&& r.report_route == immediate_route(before.has_output)
    &&& after.initialized == before.initialized
    &&& after.config == before.config
    &&& after.has_output == before.has_output
    &&& after.has_async_channel == before.has_async_channel
    &&& after.async_enabled == before.async_enabled
    &&& match before.config {
        None => {
            &&& r.route == immediate_route(before.has_output)
            &&& r.report is None
            &&& after.dropped_logs == before.dropped_logs
            &&& after.log_counter == before.log_counter
        },
        Some(c) => if level.rank() < c.threshold.rank() {
            &&& r.route == LogRoute::Skip
            &&& r.report is None
            &&& after.dropped_logs == before.dropped_logs
            &&& after.log_counter == before.log_counter
        } else {
            let count = if before.log_counter == u64::MAX { 0u64 } else { (before.log_counter + 1) as u64 };
            &&& after.log_counter == count
            &&& if count % 100 == 0 && before.dropped_logs > 0 {
                &&& after.dropped_logs == 0
                &&& r.report matches Some(t) && t@ == report_line(timestamp, before.dropped_logs)
            } else {
                &&& after.dropped_logs == before.dropped_logs
                &&& r.report is None
            }
            &&& r.route == (if before.async_enabled && before.has_async_channel {
                LogRoute::Async
            } else {
                immediate_route(before.has_output)
            })
        },
    }
}

/// A message below the configured threshold is neither written nor counted.
pub proof fn law_below_threshold_is_skipped(
    before: Logger,
    after: Logger,
    r: LogEmission,
    level: LogLevel,
    message: Seq<char>,
    context: Option<Seq<char>>,
    file: Seq<char>,
    line: u32,
    module: Seq<char>,
    timestamp: Seq<char>,
    os: TargetOs,
)
    requires
        logged_as(before, after, r, level, message, context, file, line, module, timestamp, os),
        before.config matches Some(c) && level.rank() < c.threshold.rank(),
    ensures
        r.route == LogRoute::Skip,
        r.report is None,
        after == before,
{
}

/// Errors are recorded whatever the threshold.
pub proof fn law_errors_always_recorded(
    before: Logger,
    after: Logger,
    r: LogEmission,
    message: Seq<char>,
    context: Option<Seq<char>>,
    file: Seq<char>,
    line: u32,
    module: Seq<char>,
    timestamp: Seq<char>,
    os: TargetOs,
)
    requires
        logged_as(before, after, r, LogLevel::Error, message, context, file, line, module, timestamp, os),
    ensures
        r.route != LogRoute::Skip,
{
}

/// A logger started from a missing configuration file runs on the defaults:
/// `c` is the configuration `LogConfig::from_file` gives for an unreadable
/// file; once it is applied to a logger (`started`, the host having opened its
/// outputs), the start succeeds, the output is the console, a debug message
/// is skipped and an info message is written.
pub proof fn law_missing_config_runs_on_defaults(
    c: LogConfig,
    before: Logger,
    started: Logger,
    start_result: Result<(), String>,
    after_debug: Logger,
    debug_emission: LogEmission,
    after_info: Logger,
    info_emission: LogEmission,
    message: Seq<char>,
    context: Option<Seq<char>>,
    file: Seq<char>,
    line: u32,
    module: Seq<char>,
    timestamp: Seq<char>,
    os: TargetOs,
)
    requires
        is_default_config(c),
        started_with(before, started, c, Ok(()), Ok(()), start_result),
        logged_as(started, after_debug, debug_emission, LogLevel::Debug, message, context, file, line, module, timestamp, os),
        logged_as(started, after_info, info_emission, LogLevel::Info, message, context, file, line, module, timestamp, os),
    ensures
        start_result is Ok,
        started.config == Some(c),
        c.log_type == LogType::Console,
        debug_emission.route == LogRoute::Skip,
        info_emission.route != LogRoute::Skip,
        info_emission.line@ == log_line(timestamp, LogLevel::Info, message, context, logged_file_name(file, os), line, module),
{
}

/// A configured logger records a message exactly when its level is at least as
/// severe as the threshold (in the order debug, info, warn, error): a less
/// severe message is skipped and leaves the count alone; any other is routed
/// to an output and counted.
pub proof fn law_threshold_by_severity(
    before: Logger,
    after: Logger,
    r: LogEmission,
    level: LogLevel,
    message: Seq<char>,
    context: Option<Seq<char>>,
    file: Seq<char>,
    line: u32,
    module: Seq<char>,
    timestamp: Seq<char>,
    os: TargetOs,
)
    requires
        logged_as(before, after, r, level, message, context, file, line, module, timestamp, os),
        before.config is Some,
    ensures
        r.route == LogRoute::Skip <==> less_severe(level, before.config->0.threshold),
        r.route == LogRoute::Skip <==> after.log_counter == before.log_counter,
{
    law_rank_follows_severity(level, before.config->0.threshold);
}

} // verus!
