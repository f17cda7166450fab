//! JWT issuing and the session cache behind the `/auth` endpoints.
pub mod token;
pub mod client;
pub mod models;
pub mod session;
pub mod auth;
pub mod foo;
