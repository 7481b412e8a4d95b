[package]
name = "changqiao"
version = "0.1.0"
edition = "2021"
publish = false

[dependencies]
anyhow = "=1.0.104"
dashmap = "=6.2.1"
dirs = "=6.0.0"
dotenvy = "*"
longport = "=4.3.7"
nix = { version = "=0.30.1", features = ["fs"] }
rust_decimal = "=1.43.0"
serde = { version = "=1.0.229", features = ["derive"] }
serde_json = "=1.0.154"
time = "=0.3.55"
tokio = { version = "=1.54.1", features = ["rt-multi-thread", "sync", "time", "macros", "signal"] }
tracing = "=0.1.44"
unicode-width = "=0.2.2"
