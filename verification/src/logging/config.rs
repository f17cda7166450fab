//! Log levels, output types and the logger configuration.
use vstd::prelude::*;
use crate::text::{ascii_lower, lemma_lower_eq_ignores_case, lower_eq, lower_eq_str, owned, same_ignoring_case};

verus! {

/// Severity of a message, from least to most severe.
#[derive(PartialEq, Eq, Structural, Clone, Copy, Debug)]
pub enum LogLevel {
    Debug,
    Info,
    Warn,
    Error,
}

impl LogLevel {
    /// Position in the severity order.
    pub open spec fn rank(self) -> nat {
        match self {
            LogLevel::Debug => 0,
            LogLevel::Info => 1,
            LogLevel::Warn => 2,
            LogLevel::Error => 3,
        }
    }

    /// The level's name in log lines.
    pub open spec fn text(self) -> Seq<char> {
        match self {
            LogLevel::Debug => "DEBUG"@,
            LogLevel::Info => "INFO"@,
            LogLevel::Warn => "WARN"@,
            LogLevel::Error => "ERROR"@,
        }
    }

    /// The level's name in log lines.
    pub fn as_str(&self) -> (r: &'static str)
        ensures
            r@ == self.text(),
    {
        match self {
            LogLevel::Debug => "DEBUG",
            LogLevel::Info => "INFO",
            LogLevel::Warn => "WARN",
            LogLevel::Error => "ERROR",
        }
    }

    /// Position in the severity order.
    pub fn rank_of(&self) -> (r: u8)
        ensures
            r == self.rank(),
    {
        match self {
            LogLevel::Debug => 0,
            LogLevel::Info => 1,
            LogLevel::Warn => 2,
            LogLevel::Error => 3,
        }
    }

    /// The level a configuration file names, in any letter case (`warning` is
    /// accepted for `warn`).
    pub open spec fn named(s: Seq<char>) -> Option<LogLevel> {
        if lower_eq(s, "debug"@) {
            Some(LogLevel::Debug)
        } else if lower_eq(s, "info"@) {
            Some(LogLevel::Info)
        } else if lower_eq(s, "warn"@) || lower_eq(s, "warning"@) {
            Some(LogLevel::Warn)
        } else if lower_eq(s, "error"@) {
            Some(LogLevel::Error)
        } else {
            None
        }
    }

    /// The level a configuration file names; `None` for an unknown name.
    pub fn from_config_name(s: &str) -> (r: Option<LogLevel>)
        ensures
            r == Self::named(s@),
    {
        if lower_eq_str(s, "debug") {
            Some(LogLevel::Debug)
        } else if lower_eq_str(s, "info") {
            Some(LogLevel::Info)
        } else if lower_eq_str(s, "warn") || lower_eq_str(s, "warning") {
            Some(LogLevel::Warn)
        } else if lower_eq_str(s, "error") {
            Some(LogLevel::Error)
        } else {
            None
        }
    }
}

/// Where log lines go.
#[derive(PartialEq, Eq, Structural, Clone, Copy, Debug)]
pub enum LogType {
    Console,
    File,
    Http,
}

impl LogType {
    /// The output type a configuration file names, in any letter case.
    pub open spec fn named(s: Seq<char>) -> Option<LogType> {
        if lower_eq(s, "console"@) {
            Some(LogType::Console)
        } else if lower_eq(s, "file"@) {
            Some(LogType::File)
        } else if lower_eq(s, "http"@) {
            Some(LogType::Http)
        } else {
            None
        }
    }

    /// The output type a configuration file names; `None` for an unknown name.
    pub fn from_config_name(s: &str) -> (r: Option<LogType>)
        ensures
            r == Self::named(s@),
    {
        if lower_eq_str(s, "console") {
            Some(LogType::Console)
        } else if lower_eq_str(s, "file") {
            Some(LogType::File)
        } else if lower_eq_str(s, "http") {
            Some(LogType::Http)
        } else {
            None
        }
    }
}

/// The logger's configuration (the `[logging]` section of `app_config.toml`).
pub struct LogConfig {
    pub log_type: LogType,
    /// Least severe level that is recorded.
    pub threshold: LogLevel,
    pub file_path: Option<String>,
    pub log_folder: Option<String>,
    /// Size at which files rotate, in MB.
    pub max_file_size_mb: Option<u64>,
    pub http_endpoint: Option<String>,
    pub http_timeout_seconds: Option<u64>,
    /// Hand messages to a background writer (default `true`).
    pub async_logging: bool,
    /// Flush after every write (default `false`).
    pub force_flush: bool,
}

/// Default of `async_logging`.
pub fn default_async_logging() -> (r: bool)
    ensures
        r == true,
{
    true
}

/// Default of `force_flush`.
pub fn default_force_flush() -> (r: bool)
    ensures
        r == false,
{
    false
}

fn copy_opt(s: &Option<String>) -> (r: Option<String>)
    ensures
        r == *s,
{
    match s {
        Some(x) => Some(x.clone()),
        None => None,
    }
}

/// The configuration used when no file is read: console output, `Info` threshold,
/// asynchronous, no forced flushing, nothing else set.
pub open spec fn is_default_config(c: LogConfig) -> bool {
    &&& c.log_type == LogType::Console
    &&& c.threshold == LogLevel::Info
    &&& c.file_path is None
    &&& c.log_folder is None
    &&& c.max_file_size_mb is None
    &&& c.http_endpoint is None
    &&& c.http_timeout_seconds is None
    &&& c.async_logging
    &&& !c.force_flush
}

impl LogConfig {
    /// The configuration used when no file is read.
    pub fn default_config() -> (r: LogConfig)
        ensures
            is_default_config(r),
    {
        LogConfig {
            log_type: LogType::Console,
            threshold: LogLevel::Info,
            file_path: None,
            log_folder: None,
            max_file_size_mb: None,
            http_endpoint: None,
            http_timeout_seconds: None,
            async_logging: true,
            force_flush: false,
        }
    }

    /// A copy of the configuration.
    pub fn copy(&self) -> (r: LogConfig)
        ensures
            r == *self,
    {
        LogConfig {
            log_type: self.log_type,
            threshold: self.threshold,
            file_path: copy_opt(&self.file_path),
            log_folder: copy_opt(&self.log_folder),
            max_file_size_mb: self.max_file_size_mb,
            http_endpoint: copy_opt(&self.http_endpoint),
            http_timeout_seconds: self.http_timeout_seconds,
            async_logging: self.async_logging,
            force_flush: self.force_flush,
        }
    }

    /// Settles the configuration read from a file: the `[logging]` section when it
    /// parses (`sectioned`), else the whole file read as a bare configuration
    /// (`bare`), else a refusal that reports the first parse error.
    pub fn settle_parsed(sectioned: Result<LogConfig, String>, bare: Option<LogConfig>) -> (r: Result<LogConfig, String>)
        ensures
            match sectioned {
                Ok(c) => r == Ok::<LogConfig, String>(c),
                Err(e) => match bare {
                    Some(c) => r == Ok::<LogConfig, String>(c),
                    None => r matches Err(m) && m@ == "Failed to parse config file: "@ + e@,
                },
            },
    {
        match sectioned {
            Ok(c) => Ok(c),
            Err(e) => match bare {
                Some(c) => Ok(c),
                None => Err(crate::text::concat2("Failed to parse config file: ", e.as_str())),
            },
        }
    }

    /// The configuration a configuration file gives. `read` is `None` when the
    /// file could not be read, which gives the defaults and records nothing;
    /// otherwise it holds the file parsed as a `[logging]` section and as a
    /// bare configuration, settled by `settle_parsed`. A configuration read from
    /// a file is recorded in `slot` unless one was recorded before.
    pub fn from_file(
        read: Option<(Result<LogConfig, String>, Option<LogConfig>)>,
        slot: &mut ConfigSlot,
    ) -> (r: Result<LogConfig, String>)
        ensures
            match read {
                None => (r matches Ok(c) && is_default_config(c)) && final(slot).value == old(slot).value,
                Some((sectioned, bare)) => {
                    &&& match sectioned {
                        Ok(c) => r == Ok::<LogConfig, String>(c),
                        Err(e) => match bare {
                            Some(c) => r == Ok::<LogConfig, String>(c),
                            None => r matches Err(m) && m@ == "Failed to parse config file: "@ + e@,
                        },
                    }
                    &&& r matches Ok(c) ==> final(slot).value == (match old(slot).value {
                        Some(first) => Some(first),
                        None => Some(c),
                    })
                    &&& r is Err ==> final(slot).value == old(slot).value
                },
            },
    {
        match read {
            None => Ok(LogConfig::default_config()),
            Some((sectioned, bare)) => {
                let r = LogConfig::settle_parsed(sectioned, bare);
                match &r {
                    Ok(c) => slot.get_or_init(c),
                    Err(_) => {},
                }
                r
            },
        }
    }

    /// The process-wide configuration, once one was read.
    pub fn get_instance(slot: &ConfigSlot) -> (r: Result<LogConfig, String>)
        ensures
            match slot.value {
                Some(c) => r == Ok::<LogConfig, String>(c),
                None => r matches Err(m) && m@ == "LogConfig not initialized. Call LogConfig::from_file first."@,
            },
    {
        match &slot.value {
            Some(c) => Ok(c.copy()),
            None => Err(owned("LogConfig not initialized. Call LogConfig::from_file first.")),
        }
    }
}

/// Holds the process-wide configuration: the first configuration read stays.
pub struct ConfigSlot {
    pub value: Option<LogConfig>,
}

impl ConfigSlot {
    /// A slot holding nothing yet.
    pub fn new() -> (r: ConfigSlot)
        ensures
            r.value is None,
    {
        ConfigSlot { value: None }
    }

    /// Records `config` unless a configuration was recorded before.
    pub fn get_or_init(&mut self, config: &LogConfig)
        ensures
            final(self).value == (match old(self).value {
                Some(c) => Some(c),
                None => Some(*config),
            }),
    {
        if self.value.is_none() {
            self.value = Some(config.copy());
        }
    }
}

/// Once a configuration is recorded, later ones do not replace it.
pub proof fn law_first_configuration_stays(first: LogConfig, later: Seq<LogConfig>, slots: Seq<ConfigSlot>)
    requires
        slots.len() == later.len() + 1,
        slots[0].value == Some(first),
        forall|i: int| 0 <= i < later.len() ==> (#[trigger] slots[i + 1]).value == (match slots[i].value {
            Some(c) => Some(c),
            None => Some(later[i]),
        }),
    ensures
        forall|i: int| 0 <= i < slots.len() ==> (#[trigger] slots[i]).value == Some(first),
{
    assert forall|i: int| 0 <= i < slots.len() implies (#[trigger] slots[i]).value == Some(first) by {
        lemma_slot_stays(first, later, slots, i);
    }
}

proof fn lemma_slot_stays(first: LogConfig, later: Seq<LogConfig>, slots: Seq<ConfigSlot>, i: int)
    requires
        slots.len() == later.len() + 1,
        slots[0].value == Some(first),
        forall|i: int| 0 <= i < later.len() ==> (#[trigger] slots[i + 1]).value == (match slots[i].value {
            Some(c) => Some(c),
            None => Some(later[i]),
        }),
        0 <= i < slots.len(),
    ensures
        slots[i].value == Some(first),
    decreases i,
{
    if i > 0 {
        lemma_slot_stays(first, later, slots, i - 1);
        assert(slots[(i - 1) + 1].value == Some(first));
    }
}

/// `get_instance` answers with the first configuration read: from a slot that
/// held nothing, after the reads `configs` were recorded in turn (`slots[i + 1]`
/// is `slots[i]` after `get_or_init(configs[i])`), the slot holds nothing while
/// no read was recorded, and the first one read from then on.
pub proof fn law_get_instance_is_first_read(configs: Seq<LogConfig>, slots: Seq<ConfigSlot>)
    requires
        slots.len() == configs.len() + 1,
        slots[0].value is None,
        forall|i: int| 0 <= i < configs.len() ==> (#[trigger] slots[i + 1]).value == (match slots[i].value {
            Some(c) => Some(c),
            None => Some(configs[i]),
        }),
    ensures
        forall|i: int| 1 <= i < slots.len() ==> (#[trigger] slots[i]).value == Some(configs[0]),
{
    if configs.len() > 0 {
        assert(slots[0int + 1].value == Some(configs[0]));
        let later = configs.drop_first();
        let rest = slots.drop_first();
        assert forall|i: int| 0 <= i < later.len() implies (#[trigger] rest[i + 1]).value == (match rest[i].value {
            Some(c) => Some(c),
            None => Some(later[i]),
        }) by {
            assert(rest[i + 1] == slots[(i + 1) + 1]);
            assert(rest[i] == slots[i + 1]);
            assert(later[i] == configs[i + 1]);
        }
        law_first_configuration_stays(configs[0], later, rest);
        assert forall|i: int| 1 <= i < slots.len() implies (#[trigger] slots[i]).value == Some(configs[0]) by {
            assert(slots[i] == rest[i - 1]);
        }
    }
}

/// The levels from least to most severe: debug, info, warn, error.
pub open spec fn severity_order() -> Seq<LogLevel> {
    seq![LogLevel::Debug, LogLevel::Info, LogLevel::Warn, LogLevel::Error]
}

/// `a` is less severe than `b`.
pub open spec fn less_severe(a: LogLevel, b: LogLevel) -> bool {
    exists|i: int, j: int|
        0 <= i < j < 4 && #[trigger] severity_order()[i] == a && #[trigger] severity_order()[j] == b
}

/// The rank a threshold is compared by follows the severity order: a less
/// severe level always ranks strictly lower, and a level ranks lower than
/// another only when it is less severe. Every level has its place in the order.
pub proof fn law_rank_follows_severity(a: LogLevel, b: LogLevel)
    ensures
        severity_order().contains(a),
        a.rank() < b.rank() <==> less_severe(a, b),
{
    let o = severity_order();
    let ia: int = match a {
        LogLevel::Debug => 0,
        LogLevel::Info => 1,
        LogLevel::Warn => 2,
        LogLevel::Error => 3,
    };
    let ib: int = match b {
        LogLevel::Debug => 0,
        LogLevel::Info => 1,
        LogLevel::Warn => 2,
        LogLevel::Error => 3,
    };
    assert(o[ia] == a);
    assert(o[ib] == b);
    if less_severe(a, b) {
        let (i, j) = choose|i: int, j: int|
            0 <= i < j < 4 && #[trigger] severity_order()[i] == a && #[trigger] severity_order()[j] == b;
        assert(i == ia && j == ib);
    }
    if a.rank() < b.rank() {
        assert(ia < ib);
    }
}

/// Each level is read from its own name in a configuration file, in any
/// letter case: the name a level is written with in log lines (`DEBUG`,
/// `INFO`, `WARN`, `ERROR`), in upper, lower or mixed case, gives that level,
/// and so does `warning`, in any case, for `Warn`.
pub proof fn law_level_names_round_trip(l: LogLevel, s: Seq<char>)
    requires
        same_ignoring_case(s, l.text()),
    ensures
        LogLevel::named(s) == Some(l),
        same_ignoring_case(s, "WARNING"@) ==> LogLevel::named(s) == Some(LogLevel::Warn),
{
    reveal_strlit("DEBUG");
    reveal_strlit("INFO");
    reveal_strlit("WARN");
    reveal_strlit("WARNING");
    reveal_strlit("ERROR");
    reveal_strlit("debug");
    reveal_strlit("info");
    reveal_strlit("warn");
    reveal_strlit("warning");
    reveal_strlit("error");
    let t = l.text();
    lemma_lower_eq_ignores_case(s, t, "debug"@);
    lemma_lower_eq_ignores_case(s, t, "info"@);
    lemma_lower_eq_ignores_case(s, t, "warn"@);
    lemma_lower_eq_ignores_case(s, t, "warning"@);
    lemma_lower_eq_ignores_case(s, t, "error"@);
    match l {
        LogLevel::Debug => {
            assert(lower_eq(t, "debug"@)) by {
                assert(t[0] == 'D' && t[1] == 'E' && t[2] == 'B' && t[3] == 'U' && t[4] == 'G');
            }
        },
        LogLevel::Info => {
            assert(!lower_eq(t, "debug"@));
            assert(lower_eq(t, "info"@)) by {
                assert(t[0] == 'I' && t[1] == 'N' && t[2] == 'F' && t[3] == 'O');
            }
        },
        LogLevel::Warn => {
            assert(!lower_eq(t, "debug"@));
            assert(!lower_eq(t, "info"@)) by {
                assert(ascii_lower(t[0]) == 'w');
            }
            assert(lower_eq(t, "warn"@)) by {
                assert(t[0] == 'W' && t[1] == 'A' && t[2] == 'R' && t[3] == 'N');
            }
        },
        LogLevel::Error => {
            assert(!lower_eq(t, "debug"@)) by {
                assert(ascii_lower(t[0]) == 'e');
            }
            assert(!lower_eq(t, "info"@));
            assert(!lower_eq(t, "warn"@));
            assert(!lower_eq(t, "warning"@));
            assert(lower_eq(t, "error"@)) by {
                assert(t[0] == 'E' && t[1] == 'R' && t[2] == 'R' && t[3] == 'O' && t[4] == 'R');
            }
        },
    }
    if same_ignoring_case(s, "WARNING"@) {
        let w = "WARNING"@;
        lemma_lower_eq_ignores_case(s, w, "debug"@);
        lemma_lower_eq_ignores_case(s, w, "info"@);
        lemma_lower_eq_ignores_case(s, w, "warn"@);
        lemma_lower_eq_ignores_case(s, w, "warning"@);
        assert(!lower_eq(w, "debug"@));
        assert(!lower_eq(w, "info"@));
        assert(!lower_eq(w, "warn"@));
        assert(lower_eq(w, "warning"@)) by {
            assert(w[0] == 'W' && w[1] == 'A' && w[2] == 'R' && w[3] == 'N' && w[4] == 'I' && w[5] == 'N' && w[6] == 'G');
        }
    }
}

/// The word an output type is written with in a configuration file.
pub open spec fn type_word(t: LogType) -> Seq<char> {
    match t {
        LogType::Console => "console"@,
        LogType::File => "file"@,
        LogType::Http => "http"@,
    }
}

/// Each output type is read from its own word, in any letter case.
pub proof fn law_type_names_round_trip(t: LogType, s: Seq<char>)
    requires
        same_ignoring_case(s, type_word(t)),
    ensures
        LogType::named(s) == Some(t),
{
    reveal_strlit("console");
    reveal_strlit("file");
    reveal_strlit("http");
    let w = type_word(t);
    lemma_lower_eq_ignores_case(s, w, "console"@);
    lemma_lower_eq_ignores_case(s, w, "file"@);
    lemma_lower_eq_ignores_case(s, w, "http"@);
    match t {
        LogType::Console => {
            assert(lower_eq(w, "console"@)) by {
                assert(w[0] == 'c' && w[1] == 'o' && w[2] == 'n' && w[3] == 's' && w[4] == 'o' && w[5] == 'l' && w[6] == 'e');
            }
        },
        LogType::File => {
            assert(!lower_eq(w, "console"@));
            assert(lower_eq(w, "file"@)) by {
                assert(w[0] == 'f' && w[1] == 'i' && w[2] == 'l' && w[3] == 'e');
            }
        },
        LogType::Http => {
            assert(!lower_eq(w, "console"@));
            assert(!lower_eq(w, "file"@)) by {
                assert(ascii_lower(w[0]) == 'h');
            }
            assert(lower_eq(w, "http"@)) by {
                assert(w[0] == 'h' && w[1] == 't' && w[2] == 't' && w[3] == 'p');
            }
        },
    }
}

} // verus!
