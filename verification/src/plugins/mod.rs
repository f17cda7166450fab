//! Plugins: their metadata, where their binaries come from, the execution plan
//! that lists them, the registry of loaded plugins, and request dispatch to them.
pub mod paths;
pub mod metadata;
pub mod plan;
pub mod registry;
pub mod dispatch;
