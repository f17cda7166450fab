//! The application logger: levels and configuration, message formatting, the
//! logger's decisions (threshold, asynchronous hand-off, dropped-message
//! accounting) and the choice of output.
pub mod config;
pub mod format;
pub mod logger;
pub mod outputs;
