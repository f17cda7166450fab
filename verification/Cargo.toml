[package]
name = "oobe"
version = "0.1.0"
edition = "2021"
publish = false

[dependencies]
jsonwebtoken = "=9.3.1"
serde = { version = "=1.0.229", features = ["derive"] }
serde_json = { version = "=1.0.154", features = ["preserve_order"] }
axum = { version = "=0.7.9", features = ["ws"] }
tokio = { version = "=1.54.1", features = ["full"] }
toml = "=0.8.23"
uuid = { version = "=1.29.0", features = ["v4"] }
chrono = "=0.4.45"
reqwest = { version = "=0.12.28", default-features = false, features = ["json", "blocking", "rustls-tls"] }
ureq = "=2.12.1"
rand = "=0.8.8"
once_cell = "=1.21.4"
libloading = "=0.8.9"
tower = { version = "=0.4.13", features = ["util"] }
tower-http = { version = "=0.5.2", features = ["cors", "trace", "fs"] }
http = "=1.5.0"
futures-util = "=0.3.34"
async-trait = "=0.1.92"
tokio-rusqlite = "=0.5.1"
config = { version = "=0.14.1", default-features = false, features = ["toml"] }
