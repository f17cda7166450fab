//! Run-time policies that the logging attribute macros build into the
//! functions they decorate: retries with exponential backoff, the circuit
//! breaker, log throttling, the levels `log_result` logs at, and the context
//! and argument lines.
use vstd::prelude::*;
use vstd::arithmetic::power2::{pow2, lemma_pow2_unfold, lemma_pow2_strictly_increases, lemma2_to64_rest};
use crate::logging::config::LogLevel;
use crate::macro_args::MacroArgs;
use crate::text::{owned, push_str, str_eq, decimal, decimal_string};

verus! {

/// Attempts `log_retries` makes when it is given no `max_attempts`.
pub const DEFAULT_MAX_ATTEMPTS: u32 = 3;

/// Delay before the second attempt, in milliseconds; it doubles for each later one.
pub const RETRY_BASE_DELAY_MS: u64 = 50;

/// Failures after which `circuit_breaker` opens when it is given no `failure_threshold`.
pub const DEFAULT_FAILURE_THRESHOLD: u32 = 3;

/// A recorded success time above this many seconds clears the failure count.
pub const CIRCUIT_RESET_SECONDS: u64 = 30;

/// Log lines per minute that `throttle_log` lets through when it is given no `rate`.
pub const DEFAULT_LOG_RATE: u32 = 5;

/// The delay before attempt `attempt` (counted from 1), in milliseconds:
/// 50 ms doubled once for each attempt after the first.
pub open spec fn retry_delay(attempt: nat) -> nat {
    pow2((attempt - 1) as nat) * 50
}

/// The delay a retried call sleeps before attempt `attempt`.
pub fn retry_delay_ms(attempt: u32) -> (ms: u64)
    requires
        1 <= attempt <= 59,
    ensures
        ms == retry_delay(attempt as nat),
{
    let mut p: u64 = 1;
    let mut i: u32 = 1;
    proof {
        vstd::arithmetic::power2::lemma2_to64();
        lemma2_to64_rest();
    }
    while i < attempt
        invariant
            1 <= i <= attempt <= 59,
            p == pow2((i - 1) as nat),
            pow2(58) == 0x400000000000000,
        decreases attempt - i,
    {
        proof {
            lemma_pow2_unfold(i as nat);
            if i < 59 {
                lemma_pow2_strictly_increases(i as nat, 59);
            }
            assert(pow2(58 + 1) == 2 * pow2(58)) by {
                lemma_pow2_unfold(59);
            }
        }
        p = p * 2;
        i = i + 1;
    }
    proof {
        if attempt < 59 {
            lemma_pow2_strictly_increases((attempt - 1) as nat, 58);
        }
    }
    p * 50
}

/// What a retried call does once an attempt has ended.
#[derive(PartialEq, Eq, Structural, Clone, Copy)]
pub enum RetryVerdict {
    /// Hand the attempt's result to the caller.
    Return,
    /// Sleep and try again.
    TryAgain,
}

/// A successful attempt is returned; a failed one is returned once `attempt`
/// has reached `max_attempts`, and retried before that.
pub open spec fn retry_verdict(attempt: nat, succeeded: bool, max_attempts: nat) -> RetryVerdict {
    if succeeded || attempt >= max_attempts {
        RetryVerdict::Return
    } else {
        RetryVerdict::TryAgain
    }
}

/// Decides, after attempt `attempt`, whether the retried call returns.
pub fn after_attempt(attempt: u32, succeeded: bool, max_attempts: u32) -> (v: RetryVerdict)
    ensures
        v == retry_verdict(attempt as nat, succeeded, max_attempts as nat),
{
    if succeeded || attempt >= max_attempts {
        RetryVerdict::Return
    } else {
        RetryVerdict::TryAgain
    }
}

/// A retried call never makes more than `max(max_attempts, 1)` attempts: when
/// every attempt up to `n` failed and was tried again, `n` is below `max_attempts`.
pub proof fn law_retries_bounded(n: nat, max_attempts: nat)
    requires
        n >= 1,
        forall|i: nat| 1 <= i <= n ==> #[trigger] retry_verdict(i, false, max_attempts)
            == RetryVerdict::TryAgain,
    ensures
        n < max_attempts,
{
    assert(retry_verdict(n, false, max_attempts) == RetryVerdict::TryAgain);
}

/// The failure count of a `circuit_breaker` function, and the time in seconds
/// that the generated code recorded at its last success.
#[derive(PartialEq, Eq, Structural, Clone, Copy)]
pub struct CircuitBreaker {
    pub failures: u32,
    pub last_success_secs: u64,
}

/// The state before a call: the failure count is cleared when the recorded
/// success time is above the reset limit.
pub open spec fn circuit_refreshed(s: CircuitBreaker) -> CircuitBreaker {
    if s.last_success_secs > CIRCUIT_RESET_SECONDS {
        CircuitBreaker { failures: 0, ..s }
    } else {
        s
    }
}

/// The state after a call: a success clears the count and records the time;
/// a failure adds one to the count (wrapping as the atomic counter does).
pub open spec fn circuit_recorded(s: CircuitBreaker, succeeded: bool, secs: u64) -> CircuitBreaker {
    if succeeded {
        CircuitBreaker { failures: 0, last_success_secs: secs }
    } else {
        CircuitBreaker {
            failures: if s.failures < u32::MAX { (s.failures + 1) as u32 } else { 0 },
            ..s
        }
    }
}

impl CircuitBreaker {
    /// No failures and no success recorded.
    pub fn new() -> (r: CircuitBreaker)
        ensures
            r.failures == 0,
            r.last_success_secs == 0,
    {
        CircuitBreaker { failures: 0, last_success_secs: 0 }
    }

    /// Before a call: refreshes the count and says whether the call may run,
    /// which it may while the count is below `threshold`.
    pub fn allow_call(&mut self, threshold: u32) -> (allowed: bool)
        ensures
            *final(self) == circuit_refreshed(*old(self)),
            allowed == (final(self).failures < threshold),
    {
        if self.last_success_secs > CIRCUIT_RESET_SECONDS {
            self.failures = 0;
        }
        self.failures < threshold
    }

    /// After a call that ran: records its outcome; `secs` is the time the
    /// generated code stores for a success.
    pub fn record(&mut self, succeeded: bool, secs: u64)
        ensures
            *final(self) == circuit_recorded(*old(self), succeeded, secs),
    {
        if succeeded {
            self.failures = 0;
            self.last_success_secs = secs;
        } else if self.failures < u32::MAX {
            self.failures = self.failures + 1;
        } else {
            self.failures = 0;
        }
    }
}

/// The state after `n` failing calls, each allowed before it ran; a refused
/// call ends the run.
pub open spec fn failing_run(s: CircuitBreaker, threshold: u32, n: nat) -> CircuitBreaker
    decreases n,
{
    if n == 0 {
        s
    } else {
        let r = circuit_refreshed(s);
        if r.failures < threshold {
            failing_run(circuit_recorded(r, false, 0), threshold, (n - 1) as nat)
        } else {
            r
        }
    }
}

proof fn lemma_failing_run(s: CircuitBreaker, threshold: u32, n: nat)
    requires
        s.last_success_secs <= CIRCUIT_RESET_SECONDS,
        s.failures <= threshold,
    ensures
        failing_run(s, threshold, n).last_success_secs == s.last_success_secs,
        failing_run(s, threshold, n).failures == if s.failures + n <= threshold {
            s.failures + n
        } else {
            threshold as int
        },
    decreases n,
{
    if n > 0 && s.failures < threshold {
        lemma_failing_run(circuit_recorded(s, false, 0), threshold, (n - 1) as nat);
    }
}

/// A fresh circuit breaker refuses a call once `threshold` calls in a row have
/// failed: after any `n >= threshold` failing calls, the next one is refused.
pub proof fn law_circuit_opens(threshold: u32, n: nat)
    requires
        n >= threshold,
    ensures
        circuit_refreshed(failing_run(CircuitBreaker { failures: 0, last_success_secs: 0 }, threshold, n)).failures
            >= threshold,
{
    lemma_failing_run(CircuitBreaker { failures: 0, last_success_secs: 0 }, threshold, n);
}

/// An open circuit stays open: while no call runs, asking again refuses again
/// and leaves the state as it was.
pub proof fn law_open_circuit_stays_open(s: CircuitBreaker, threshold: u32)
    requires
        circuit_refreshed(s).failures >= threshold,
    ensures
        circuit_refreshed(circuit_refreshed(s)) == circuit_refreshed(s),
{
}

/// The error an open circuit returns in place of calling `fn_name`.
pub fn circuit_open_error(fn_name: &str) -> (r: String)
    ensures
        r@ == "Circuit breaker open for "@ + fn_name@,
{
    let mut r = owned("Circuit breaker open for ");
    push_str(&mut r, fn_name);
    r
}

/// The rate limit of a `throttle_log` function: the minute of its current
/// window, the calls counted in it, and the log lines skipped in it.
#[derive(PartialEq, Eq, Structural, Clone, Copy)]
pub struct LogThrottle {
    pub counter: usize,
    pub last_minute: u64,
    pub skipped: usize,
}

/// What the throttle decided for one call.
#[derive(PartialEq, Eq, Structural, Clone, Copy)]
pub struct ThrottleDecision {
    /// Whether the call's log line is written.
    pub should_log: bool,
    /// Lines skipped in the window that this call closed (0 when none closed);
    /// a summary line is written when it is above 0.
    pub skipped_before: usize,
}

/// One call in minute `minute`. A call in a new minute opens a window, with
/// the call counted and logged; a call in the same minute adds one to the count
/// and is logged while the count is at most `rate`, else counted as skipped.
pub open spec fn throttle_step(s: LogThrottle, minute: u64, rate: u32) -> (LogThrottle, ThrottleDecision) {
    if s.last_minute != minute {
        (
            LogThrottle { counter: 1, last_minute: minute, skipped: 0 },
            ThrottleDecision { should_log: true, skipped_before: s.skipped },
        )
    } else if s.counter + 1 <= rate {
        (
            LogThrottle { counter: (s.counter + 1) as usize, ..s },
            ThrottleDecision { should_log: true, skipped_before: 0 },
        )
    } else {
        (
            LogThrottle {
                counter: (s.counter + 1) as usize,
                skipped: if s.skipped < usize::MAX { (s.skipped + 1) as usize } else { 0 },
                ..s
            },
            ThrottleDecision { should_log: false, skipped_before: 0 },
        )
    }
}

impl LogThrottle {
    /// No window opened yet.
    pub fn new() -> (r: LogThrottle)
        ensures
            r == (LogThrottle { counter: 0, last_minute: 0, skipped: 0 }),
    {
        LogThrottle { counter: 0, last_minute: 0, skipped: 0 }
    }

    /// Counts a call made at `now_secs` seconds since the epoch.
    pub fn enter(&mut self, now_secs: u64, rate: u32) -> (d: ThrottleDecision)
        requires
            old(self).last_minute == now_secs / 60 ==> old(self).counter < usize::MAX,
        ensures
            (*final(self), d) == throttle_step(*old(self), now_secs / 60, rate),
    {
        let minute = now_secs / 60;
        if self.last_minute != minute {
            let skipped = self.skipped;
            self.last_minute = minute;
            self.skipped = 0;
            self.counter = 1;
            ThrottleDecision { should_log: true, skipped_before: skipped }
        } else {
            let count = self.counter + 1;
            self.counter = count;
            if count <= rate as usize {
                ThrottleDecision { should_log: true, skipped_before: 0 }
            } else {
                if self.skipped < usize::MAX {
                    self.skipped = self.skipped + 1;
                } else {
                    self.skipped = 0;
                }
                ThrottleDecision { should_log: false, skipped_before: 0 }
            }
        }
    }
}

/// Log lines written by `n` calls made in minute `minute`, starting from `s`.
pub open spec fn logged_in_minute(s: LogThrottle, minute: u64, rate: u32, n: nat) -> nat
    decreases n,
{
    if n == 0 {
        0
    } else {
        let (t, d) = throttle_step(s, minute, rate);
        (if d.should_log { 1nat } else { 0nat }) + logged_in_minute(t, minute, rate, (n - 1) as nat)
    }
}

proof fn lemma_logged_in_open_window(s: LogThrottle, minute: u64, rate: u32, n: nat)
    requires
        s.last_minute == minute,
        s.counter + n <= usize::MAX,
    ensures
        logged_in_minute(s, minute, rate, n) <= if s.counter >= rate { 0 } else { rate - s.counter },
    decreases n,
{
    if n > 0 {
        let (t, d) = throttle_step(s, minute, rate);
        lemma_logged_in_open_window(t, minute, rate, (n - 1) as nat);
    }
}

/// The calls of one minute write at most `max(rate, 1)` log lines: from a
/// window of another minute, any `n` calls within minute `minute` log at most
/// that often.
pub proof fn law_throttle_rate(s: LogThrottle, minute: u64, rate: u32, n: nat)
    requires
        s.last_minute != minute,
        n <= usize::MAX,
    ensures
        logged_in_minute(s, minute, rate, n) <= if rate >= 1 { rate as nat } else { 1 },
{
    if n > 0 {
        let (t, d) = throttle_step(s, minute, rate);
        lemma_logged_in_open_window(t, minute, rate, (n - 1) as nat);
    }
}

/// The summary written when a window that skipped lines is closed.
pub fn throttle_summary(fn_name: &str, skipped: usize) -> (r: String)
    ensures
        r@ == "Throttled logs for "@ + fn_name@ + ": skipped "@ + decimal(skipped as nat)
            + " logs in previous minute"@,
{
    let mut r = owned("Throttled logs for ");
    push_str(&mut r, fn_name);
    push_str(&mut r, ": skipped ");
    let n = decimal_string(skipped as u64);
    push_str(&mut r, n.as_str());
    push_str(&mut r, " logs in previous minute");
    r
}

/// The level `log_result` logs a success at, for the name it was given.
pub open spec fn success_level(name: Seq<char>) -> LogLevel {
    if name == "debug"@ {
        LogLevel::Debug
    } else if name == "warn"@ {
        LogLevel::Warn
    } else if name == "error"@ {
        LogLevel::Error
    } else {
        LogLevel::Info
    }
}

/// The level `log_result` logs a failure at, for the name it was given.
pub open spec fn failure_level(name: Seq<char>) -> LogLevel {
    if name == "debug"@ {
        LogLevel::Debug
    } else if name == "info"@ {
        LogLevel::Info
    } else if name == "warn"@ {
        LogLevel::Warn
    } else {
        LogLevel::Error
    }
}

/// The level for a success, named exactly `debug`, `warn` or `error`; any
/// other name gives `Info`.
pub fn success_log_level(name: &str) -> (l: LogLevel)
    ensures
        l == success_level(name@),
{
    if str_eq(name, "debug") {
        LogLevel::Debug
    } else if str_eq(name, "warn") {
        LogLevel::Warn
    } else if str_eq(name, "error") {
        LogLevel::Error
    } else {
        LogLevel::Info
    }
}

/// The level for a failure, named exactly `debug`, `info` or `warn`; any other
/// name gives `Error`.
pub fn failure_log_level(name: &str) -> (l: LogLevel)
    ensures
        l == failure_level(name@),
{
    if str_eq(name, "debug") {
        LogLevel::Debug
    } else if str_eq(name, "info") {
        LogLevel::Info
    } else if str_eq(name, "warn") {
        LogLevel::Warn
    } else {
        LogLevel::Error
    }
}

/// The levels `log_result` uses for a success and a failure: the ones its
/// arguments name, `info` and `error` when they name none.
pub fn result_log_levels(args: &MacroArgs) -> (r: (LogLevel, LogLevel))
    ensures
        r.0 == success_level(match args.success_level { Some(s) => s@, None => "info"@ }),
        r.1 == failure_level(match args.error_level { Some(s) => s@, None => "error"@ }),
{
    let ok = match &args.success_level {
        Some(s) => success_log_level(s.as_str()),
        None => success_log_level("info"),
    };
    let err = match &args.error_level {
        Some(s) => failure_log_level(s.as_str()),
        None => failure_log_level("error"),
    };
    (ok, err)
}

/// Whether a feature flag is on: only `new_ui` is.
pub fn is_feature_enabled(feature: &str) -> (r: bool)
    ensures
        r == (feature@ == "new_ui"@),
{
    str_eq(feature, "new_ui")
}

/// The request context values the generated code reads.
pub open spec fn context_value(key: Seq<char>) -> Option<Seq<char>> {
    if key == "user_id"@ {
        Some("12345"@)
    } else if key == "session_id"@ {
        Some("abcd-1234-xyz"@)
    } else if key == "request_id"@ {
        Some("req-789"@)
    } else {
        None
    }
}

/// The value stored under `key` in the request context; `None` for other keys.
pub fn get_thread_local_value(key: &str) -> (r: Option<String>)
    ensures
        match r {
            Some(v) => context_value(key@) == Some(v@),
            None => context_value(key@) is None,
        },
{
    if str_eq(key, "user_id") {
        Some(owned("12345"))
    } else if str_eq(key, "session_id") {
        Some(owned("abcd-1234-xyz"))
    } else if str_eq(key, "request_id") {
        Some(owned("req-789"))
    } else {
        None
    }
}

/// The texts of `parts`.
pub open spec fn texts(parts: Seq<String>) -> Seq<Seq<char>> {
    parts.map_values(|p: String| p@)
}

/// `parts` with `sep` between each two.
pub open spec fn joined(parts: Seq<Seq<char>>, sep: Seq<char>) -> Seq<char>
    decreases parts.len(),
{
    if parts.len() == 0 {
        Seq::empty()
    } else if parts.len() == 1 {
        parts[0]
    } else {
        joined(parts.drop_last(), sep) + sep + parts.last()
    }
}

/// The parts with `sep` between each two.
pub fn join_strings(parts: &Vec<String>, sep: &str) -> (r: String)
    ensures
        r@ == joined(texts(parts@), sep@),
{
    let mut r = String::new();
    let n = parts.len();
    let mut i: usize = 0;
    while i < n
        invariant
            n == parts@.len(),
            i <= n,
            r@ == joined(texts(parts@.take(i as int)), sep@),
        decreases n - i,
    {
        let ghost before = texts(parts@.take(i as int));
        if i > 0 {
            push_str(&mut r, sep);
        }
        push_str(&mut r, parts[i].as_str());
        proof {
            let after = texts(parts@.take(i + 1));
            assert(after.drop_last() =~= before);
            assert(after.last() == parts@[i as int]@);
            if i == 0 {
                assert(before =~= Seq::<Seq<char>>::empty());
            }
            assert(r@ =~= joined(after, sep@));
        }
        i += 1;
    }
    assert(parts@.take(n as int) =~= parts@);
    r
}

/// `tag` followed by the value, as a one-part list, or no part for no value.
pub open spec fn tagged(tag: Seq<char>, v: Option<String>) -> Seq<Seq<char>> {
    match v {
        Some(x) => seq![tag + x@],
        None => Seq::empty(),
    }
}

/// The context line of `request_context`: the values present, each as
/// `key=value`, separated by `, `, or a fixed text when none is.
pub open spec fn context_line(user: Option<String>, session: Option<String>, request: Option<String>) -> Seq<char> {
    let parts = tagged("user_id="@, user) + tagged("session_id="@, session) + tagged(
        "request_id="@,
        request,
    );
    if parts.len() == 0 {
        "No context available"@
    } else {
        joined(parts, ", "@)
    }
}

fn push_tagged(parts: &mut Vec<String>, tag: &str, v: &Option<String>)
    ensures
        texts(final(parts)@) == texts(old(parts)@) + tagged(tag@, *v),
{
    match v {
        Some(x) => {
            let mut t = owned(tag);
            push_str(&mut t, x.as_str());
            parts.push(t);
        },
        None => {},
    }
    assert(texts(parts@) =~= texts(old(parts)@) + tagged(tag@, *v));
}

/// The context line for the given user, session and request ids.
pub fn request_context_line(user: &Option<String>, session: &Option<String>, request: &Option<String>) -> (r: String)
    ensures
        r@ == context_line(*user, *session, *request),
{
    let mut parts: Vec<String> = Vec::new();
    assert(texts(parts@) =~= Seq::<Seq<char>>::empty());
    push_tagged(&mut parts, "user_id=", user);
    push_tagged(&mut parts, "session_id=", session);
    push_tagged(&mut parts, "request_id=", request);
    if parts.len() == 0 {
        owned("No context available")
    } else {
        join_strings(&parts, ", ")
    }
}

/// `name = value` for one logged argument.
pub open spec fn arg_entry(p: (String, String)) -> Seq<char> {
    p.0@ + " = "@ + p.1@
}

/// The argument list of `log_args`: `name = value` for each argument, in order,
/// separated by `, `.
pub fn args_line(args: &Vec<(String, String)>) -> (r: String)
    ensures
        r@ == joined(args@.map_values(|p: (String, String)| arg_entry(p)), ", "@),
{
    let mut parts: Vec<String> = Vec::new();
    let n = args.len();
    let mut i: usize = 0;
    while i < n
        invariant
            n == args@.len(),
            i <= n,
            texts(parts@) == args@.take(i as int).map_values(|p: (String, String)| arg_entry(p)),
        decreases n - i,
    {
        let mut t = owned(args[i].0.as_str());
        push_str(&mut t, " = ");
        push_str(&mut t, args[i].1.as_str());
        let ghost before = parts@;
        assert(t@ == arg_entry(args@[i as int]));
        parts.push(t);
        proof {
            assert(texts(parts@) =~= texts(before).push(t@));
            assert(args@.take(i + 1).map_values(|p: (String, String)| arg_entry(p)) =~= args@.take(
                i as int,
            ).map_values(|p: (String, String)| arg_entry(p)).push(arg_entry(args@[i as int])));
        }
        i += 1;
    }
    assert(args@.take(n as int) =~= args@);
    join_strings(&parts, ", ")
}

/// The error a `catch_panic` function returns for a panic in `fn_name`: the
/// panic's message when it carried text, else a fixed one.
pub fn caught_panic_error(fn_name: &str, message: &Option<String>) -> (r: String)
    ensures
        r@ == "Panic in "@ + fn_name@ + ": "@ + match *message {
            Some(m) => m@,
            None => "Unknown panic "@,
        },
{
    let mut r = owned("Panic in ");
    push_str(&mut r, fn_name);
    push_str(&mut r, ": ");
    match message {
        Some(m) => push_str(&mut r, m.as_str()),
        None => push_str(&mut r, "Unknown panic "),
    }
    r
}

} // verus!
