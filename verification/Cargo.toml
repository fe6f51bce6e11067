[package]
name = "ntfy_bridge"
version = "0.1.0"
edition = "2021"
publish = false

[dependencies]
url = "2"
ntfy = "*"
clap = { version = "4", features = ["derive", "env"] }
serde = { version = "1", features = ["derive"] }
serde_with = "3"
strum = { version = "0.27", features = ["derive"] }
axum = "0.8"
axum-client-ip = "*"
tokio = { version = "1", features = ["full"] }
tower = "0.5"
tower-http = { version = "0.6", features = ["set-header", "validate-request", "auth"] }
tower_governor = "*"
tracing = "0.1"
tracing-subscriber = "0.3"
tracing-panic = "*"
humantime = "2"
futures-util = "0.3"
anyhow = "1"
async-trait = "0.1"
dotenvy = "0.15"

[dev-dependencies]
serde_json = "1"
