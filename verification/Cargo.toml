[package]
name = "bundle_parts"
version = "0.1.0"
edition = "2021"
publish = false

[dependencies]
anyhow = "=1.0.104"
bytes = "=1.12.1"
futures = "=0.1.31"
futures-util = "0.3"
clap = "=2.34.0"
fbinit = "=0.2.0"
slog = "=2.8.2"
thiserror = "=1.0.69"
tokio = { version = "=1.54.1", features = ["fs", "io-util", "rt-multi-thread"] }
tokio-stream = { version = "=0.1.19", features = ["io-util"] }
