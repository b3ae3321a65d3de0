[package]
name = "facegate"
version = "0.1.0"
edition = "2021"
publish = false

[dependencies]
zeroize = "=1.9.1"
serde = { version = "=1.0.229", features = ["derive"] }
serde_json = "=1.0.154"
toml = "=0.8.23"
libc = "=0.2.191"
anyhow = "=1.0.104"
thiserror = "=1.0.69"
clap = { version = "=4.6.7", features = ["derive"] }
clap_complete = "4"
tokio = { version = "=1.54.1", features = ["rt-multi-thread", "net", "io-util", "macros", "sync", "time", "signal"] }
crossterm = "=0.28.1"
ratatui = "=0.29.0"
tracing = "=0.1.44"
tracing-subscriber = "=0.3.23"
zbus = { version = "5", default-features = false, features = ["tokio"] }
futures-util = "0.3"
