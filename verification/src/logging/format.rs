//! The text of a log line.
use vstd::prelude::*;
use crate::text::{decimal, owned, push_decimal, push_str};
use crate::logging::config::LogLevel;

verus! {

/// `{timestamp} [{LEVEL}] [{file}:{line}] [{module}] {message}`, followed by
/// ` | {context}` when there is a context.
pub open spec fn log_line(
    timestamp: Seq<char>,
    level: LogLevel,
    message: Seq<char>,
    context: Option<Seq<char>>,
    file: Seq<char>,
    line: u32,
    module: Seq<char>,
) -> Seq<char> {
    let head = timestamp + " ["@ + level.text() + "] ["@ + file + ":"@ + decimal(line as nat) + "] ["@ + module
        + "] "@ + message;
    match context {
        Some(ctx) => head + " | "@ + ctx,
        None => head,
    }
}

/// The view of an optional text.
pub open spec fn opt_view(s: Option<&str>) -> Option<Seq<char>> {
    match s {
        Some(x) => Some(x@),
        None => None,
    }
}

/// The text of a log line.
pub fn format_log_message(
    timestamp: &str,
    level: &LogLevel,
    message: &str,
    context: Option<&str>,
    file: &str,
    line: u32,
    module: &str,
) -> (r: String)
    ensures
        r@ == log_line(timestamp@, *level, message@, opt_view(context), file@, line, module@),
{
    let mut r = owned(timestamp);
    push_str(&mut r, " [");
    push_str(&mut r, level.as_str());
    push_str(&mut r, "] [");
    push_str(&mut r, file);
    push_str(&mut r, ":");
    push_decimal(&mut r, line as u64);
    push_str(&mut r, "] [");
    push_str(&mut r, module);
    push_str(&mut r, "] ");
    push_str(&mut r, message);
    match context {
        Some(ctx) => {
            push_str(&mut r, " | ");
            push_str(&mut r, ctx);
        },
        None => {},
    }
    r
}

/// A log line as written to standard error when no output is configured: the
/// line followed by a newline.
pub fn stderr_line(
    timestamp: &str,
    level: &LogLevel,
    message: &str,
    context: Option<&str>,
    file: &str,
    line: u32,
    module: &str,
) -> (r: String)
    ensures
        r@ == log_line(timestamp@, *level, message@, opt_view(context), file@, line, module@) + "\n"@,
{
    let mut r = format_log_message(timestamp, level, message, context, file, line, module);
    push_str(&mut r, "\n");
    r
}

} // verus!
