//! Choosing the logger's output from the recorded configuration.
use vstd::prelude::*;
use crate::text::owned;
use crate::plugins::paths::{join_path, join_path_str, TargetOs};
use crate::logging::config::{LogConfig, LogType};

verus! {

/// Writes log lines to standard output.
pub struct ConsoleOutput;

impl ConsoleOutput {
    /// The console output.
    pub fn new() -> (r: ConsoleOutput) {
        ConsoleOutput
    }
}

/// The output the host is to open.
pub enum OutputTarget {
    /// Standard output.
    Console,
    /// Append to the file at `path`, creating the folder `create_folder` first if
    /// one is named; flush after every line when `force_flush`.
    File { path: String, create_folder: Option<String>, force_flush: bool },
    /// POST each line to `endpoint`, waiting at most `timeout_seconds`.
    Http { endpoint: String, timeout_seconds: u64 },
}

/// Default HTTP timeout, in seconds.
pub const DEFAULT_HTTP_TIMEOUT_SECONDS: u64 = 30;

/// The message when no configuration was recorded.
pub open spec fn not_initialized_message() -> Seq<char> {
    "LogConfig not initialized. Call LogConfig::from_file first."@
}

/// Chooses the output for `log_type`. File and HTTP outputs take their settings
/// from `recorded`, the process-wide configuration (if one was recorded).
pub fn output_target(log_type: LogType, recorded: Option<&LogConfig>, os: TargetOs) -> (r: Result<OutputTarget, String>)
    ensures
        log_type == LogType::Console ==> r matches Ok(OutputTarget::Console),
        log_type != LogType::Console && recorded is None ==> (r matches Err(m) && m@ == not_initialized_message()),
        log_type == LogType::File && recorded is Some ==> match recorded->0.file_path {
            None => r matches Err(m) && m@ == "File path not specified in configuration"@,
            Some(fp) => r matches Ok(OutputTarget::File { path, create_folder, force_flush }) && force_flush
                == recorded->0.force_flush && create_folder == recorded->0.log_folder && path@ == match recorded->0.log_folder {
                Some(folder) => join_path(folder@, fp@, os),
                None => fp@,
            },
        },
        log_type == LogType::Http && recorded is Some ==> match recorded->0.http_endpoint {
            None => r matches Err(m) && m@ == "HTTP endpoint not specified in configuration"@,
            Some(ep) => r matches Ok(OutputTarget::Http { endpoint, timeout_seconds }) && endpoint == ep
                && timeout_seconds == match recorded->0.http_timeout_seconds {
                Some(t) => t,
                None => DEFAULT_HTTP_TIMEOUT_SECONDS,
            },
        },
{
    match log_type {
        LogType::Console => Ok(OutputTarget::Console),
        LogType::File => {
            let config = match recorded {
                Some(c) => c,
                None => {
                    return Err(owned("LogConfig not initialized. Call LogConfig::from_file first."));
                },
            };
            let file_path = match &config.file_path {
                Some(p) => p,
                None => {
                    return Err(owned("File path not specified in configuration"));
                },
            };
            match &config.log_folder {
                Some(folder) => Ok(OutputTarget::File {
                    path: join_path_str(folder.as_str(), file_path.as_str(), os),
                    create_folder: Some(folder.clone()),
                    force_flush: config.force_flush,
                }),
                None => Ok(OutputTarget::File { path: file_path.clone(), create_folder: None, force_flush: config.force_flush }),
            }
        },
        LogType::Http => {
            let config = match recorded {
                Some(c) => c,
                None => {
                    return Err(owned("LogConfig not initialized. Call LogConfig::from_file first."));
                },
            };
            let endpoint = match &config.http_endpoint {
                Some(e) => e.clone(),
                None => {
                    return Err(owned("HTTP endpoint not specified in configuration"));
                },
            };
            let timeout_seconds = match config.http_timeout_seconds {
                Some(t) => t,
                None => DEFAULT_HTTP_TIMEOUT_SECONDS,
            };
            Ok(OutputTarget::Http { endpoint, timeout_seconds })
        },
    }
}

} // verus!
