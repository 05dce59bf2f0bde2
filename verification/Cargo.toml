[package]
name = "the_agency"
version = "0.2.0"
edition = "2021"
publish = false

[dependencies]
uuid = { version = "=1.29.1", features = ["v4", "serde"] }
regex = "=1.13.1"
serde = { version = "=1.0.229", features = ["derive"] }
serde_json = "=1.0.154"
chrono = { version = "=0.4.45", features = ["serde"] }
tokio = { version = "=1.54.1", features = ["full"] }
async-trait = "=0.1.92"
reqwest = { version = "=0.12.28", default-features = false, features = ["json"] }
sqlx = { version = "=0.8.6", default-features = false, features = ["runtime-tokio", "sqlite"] }
tracing = "=0.1.44"
thiserror = "=1.0.69"
futures = "=0.3.34"
anyhow = "=1.0.104"
toml = "=0.8.23"
serde_yml = "=0.0.13"
axum = "=0.8.9"
tower-http = { version = "=0.6.11", features = ["cors", "trace"] }
tracing-subscriber = { version = "=0.3.23", features = ["env-filter"] }
base64 = "=0.22.1"
flume = "=0.11.1"
jsonrpc-core = "=18.0.0"
daemonize = "=0.5.0"
