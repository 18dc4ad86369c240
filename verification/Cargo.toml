[package]
name = "ws_session"
version = "0.1.0"
edition = "2021"
publish = false

[dependencies]
axum = "0.7"
axum-extra = { version = "0.9", features = ["typed-header"] }
bytes = "1"
bytestring = "1"
futures = "0.3"
http = "1"
log = "0.4"
rand = "0.9"
scopeguard = "1"
serde = { version = "1", features = ["derive"] }
spacetimedb-client-api-messages = "=1.2.0"
spacetimedb-lib = "=1.2.0"
tokio = { version = "1", features = ["macros", "rt", "sync", "time"] }
tokio-tungstenite = "0.26"
tracing = "0.1"
