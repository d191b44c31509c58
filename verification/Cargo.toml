[package]
name = "loki_mcp"
version = "0.1.0"
edition = "2021"
publish = false

[dependencies]
anyhow = "1"
axum = "*"
chrono = { version = "0.4", features = ["serde"] }
chrono-tz = "*"
clap = { version = "4", features = ["derive", "env"] }
figment = { version = "0.10", features = ["toml", "env"] }
governor = "*"
moka = { version = "*", features = ["sync", "future"] }
prometheus = "*"
reqwest = { version = "*", features = ["json"] }
rmcp = { version = "*", features = ["server", "transport-streamable-http-server"] }
schemars = "*"
serde = { version = "1", features = ["derive"] }
serde_json = "1"
thiserror = "*"
tokio = { version = "1", features = ["full"] }
tracing = "0.1"
tracing-subscriber = { version = "0.3", features = ["env-filter"] }
