use oobe::instrument::{
    after_attempt, args_line, caught_panic_error, circuit_open_error, failure_log_level, get_thread_local_value,
    is_feature_enabled, join_strings, request_context_line, result_log_levels, retry_delay_ms, success_log_level,
    throttle_summary, CircuitBreaker, LogThrottle, RetryVerdict, DEFAULT_FAILURE_THRESHOLD, DEFAULT_LOG_RATE,
    DEFAULT_MAX_ATTEMPTS,
};
use oobe::logging::config::LogLevel;
use oobe::macro_args::MacroArgs;

#[test]
fn retry_delays_double_from_fifty_ms() {
    assert_eq!(retry_delay_ms(1), 50);
    assert_eq!(retry_delay_ms(2), 100);
    assert_eq!(retry_delay_ms(3), 200);
    assert_eq!(retry_delay_ms(6), 1600);
    assert_eq!(retry_delay_ms(59), 50u64 << 58);
}

#[test]
fn retries_stop_at_success_or_limit() {
    assert!(after_attempt(1, true, 3) == RetryVerdict::Return);
    assert!(after_attempt(1, false, 3) == RetryVerdict::TryAgain);
    assert!(after_attempt(2, false, 3) == RetryVerdict::TryAgain);
    assert!(after_attempt(3, false, 3) == RetryVerdict::Return);
    assert!(after_attempt(1, false, 0) == RetryVerdict::Return);
    let mut attempts = 0u32;
    loop {
        attempts += 1;
        if after_attempt(attempts, false, DEFAULT_MAX_ATTEMPTS) == RetryVerdict::Return {
            break;
        }
    }
    assert_eq!(attempts, 3);
}

#[test]
fn circuit_opens_after_threshold_failures() {
    let mut cb = CircuitBreaker::new();
    for _ in 0..DEFAULT_FAILURE_THRESHOLD {
        assert!(cb.allow_call(DEFAULT_FAILURE_THRESHOLD));
        cb.record(false, 0);
    }
    assert_eq!(cb.failures, 3);
    assert!(!cb.allow_call(DEFAULT_FAILURE_THRESHOLD));
    assert!(!cb.allow_call(DEFAULT_FAILURE_THRESHOLD));
    assert_eq!(circuit_open_error("fetch"), "Circuit breaker open for fetch");
}

#[test]
fn circuit_success_clears_and_slow_success_resets() {
    let mut cb = CircuitBreaker::new();
    cb.record(false, 0);
    cb.record(false, 0);
    cb.record(true, 5);
    assert_eq!(cb.failures, 0);
    assert_eq!(cb.last_success_secs, 5);
    cb.record(false, 0);
    cb.record(true, 31);
    cb.record(false, 0);
    cb.record(false, 0);
    cb.record(false, 0);
    assert_eq!(cb.failures, 3);
    assert!(cb.allow_call(3));
    assert_eq!(cb.failures, 0);
}

#[test]
fn throttle_allows_rate_per_minute_and_summarises() {
    let mut t = LogThrottle::new();
    let mut logged = 0;
    for s in 0..10u64 {
        let d = t.enter(120 + s, DEFAULT_LOG_RATE);
        if d.should_log {
            logged += 1;
        }
        assert_eq!(d.skipped_before, 0);
    }
    assert_eq!(logged, 5);
    assert_eq!(t.skipped, 5);
    let d = t.enter(180, DEFAULT_LOG_RATE);
    assert!(d.should_log);
    assert_eq!(d.skipped_before, 5);
    assert_eq!(t.counter, 1);
    let mut z = LogThrottle::new();
    assert!(z.enter(600, 0).should_log);
    assert!(!z.enter(601, 0).should_log);
    assert_eq!(throttle_summary("job", 5), "Throttled logs for job: skipped 5 logs in previous minute");
}

#[test]
fn result_levels_by_name() {
    assert!(success_log_level("debug") == LogLevel::Debug);
    assert!(success_log_level("warn") == LogLevel::Warn);
    assert!(success_log_level("error") == LogLevel::Error);
    assert!(success_log_level("info") == LogLevel::Info);
    assert!(success_log_level("DEBUG") == LogLevel::Info);
    assert!(failure_log_level("info") == LogLevel::Info);
    assert!(failure_log_level("whatever") == LogLevel::Error);
    let mut args = MacroArgs::empty();
    let (ok, err) = result_log_levels(&args);
    assert!(ok == LogLevel::Info && err == LogLevel::Error);
    args.success_level = Some("debug".to_string());
    args.error_level = Some("warn".to_string());
    let (ok, err) = result_log_levels(&args);
    assert!(ok == LogLevel::Debug && err == LogLevel::Warn);
}

#[test]
fn feature_flags_and_context_values() {
    assert!(is_feature_enabled("new_ui"));
    assert!(!is_feature_enabled("experimental"));
    assert!(!is_feature_enabled("other"));
    assert_eq!(get_thread_local_value("user_id").as_deref(), Some("12345"));
    assert_eq!(get_thread_local_value("session_id").as_deref(), Some("abcd-1234-xyz"));
    assert_eq!(get_thread_local_value("request_id").as_deref(), Some("req-789"));
    assert!(get_thread_local_value("tenant").is_none());
}

#[test]
fn context_and_argument_lines() {
    let user = get_thread_local_value("user_id");
    let session = get_thread_local_value("session_id");
    let request = get_thread_local_value("request_id");
    assert_eq!(
        request_context_line(&user, &session, &request),
        "user_id=12345, session_id=abcd-1234-xyz, request_id=req-789"
    );
    assert_eq!(request_context_line(&None, &session, &None), "session_id=abcd-1234-xyz");
    assert_eq!(request_context_line(&None, &None, &None), "No context available");
    let args = vec![("a".to_string(), "1".to_string()), ("name".to_string(), "\"x\"".to_string())];
    assert_eq!(args_line(&args), "a = 1, name = \"x\"");
    assert_eq!(args_line(&vec![]), "");
    assert_eq!(join_strings(&vec!["p".to_string(), "q".to_string(), "r".to_string()], "-"), "p-q-r");
}

#[test]
fn caught_panic_messages() {
    assert_eq!(caught_panic_error("work", &Some("boom".to_string())), "Panic in work: boom");
    assert_eq!(caught_panic_error("work", &None), "Panic in work: Unknown panic ");
}
