[package]
name = "aberp"
version = "0.1.0"
edition = "2021"
publish = false

[dependencies]
time = { version = "0.3", features = ["macros", "parsing", "formatting"] }
ulid = "1"
sha2 = "0.10"
hex = "0.4"
rust_decimal = "1"
base64 = "0.22"
serde = { version = "1", features = ["derive"] }
serde_json = "1"
anyhow = "1"
thiserror = "2"
tokio = { version = "1", features = ["sync", "time", "rt", "macros"] }
tokio-util = "0.7"
tracing = "0.1"
tracing-subscriber = { version = "0.3", features = ["env-filter"] }
clap = { version = "4", features = ["derive"] }
rustls = "0.23"
duckdb = { version = "1", default-features = false }
