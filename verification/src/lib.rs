//! Verified core of the OOBE plugin engine: JWT session management,
//! execution-plan handling, plugin registry and request dispatch,
//! logging configuration and formatting, and the publish/subscribe
//! protocol of the engine's WebSocket hub.
//!
//! Everything that performs I/O (sockets, files, dynamic libraries,
//! HTTP clients, timers) lives outside this crate; the functions here
//! take the results of that work as plain values and decide what to do.
pub mod text;
pub mod store;
pub mod jwt;
pub mod plugins;
pub mod logging;
pub mod telemetry;
pub mod pubsub;
pub mod engine;
pub mod macro_args;
pub mod instrument;
