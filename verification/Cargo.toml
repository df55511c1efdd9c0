[package]
name = "quic_transfer"
version = "0.1.0"
edition = "2021"
publish = false

[dependencies]
anyhow = "=1.0.104"
clap = { version = "=4.6.7", features = ["derive", "env"] }
log = "=0.4.35"
quinn = { version = "=0.11.12", default-features = false, features = ["rustls-ring", "runtime-tokio", "log"] }
reedline-repl-rs = { version = "=1.3.0", features = ["async"] }
rustls = { version = "=0.23.46", default-features = false, features = ["ring", "std", "logging", "tls12"] }
tokio = { version = "=1.54.1", features = ["full"] }
tracing-subscriber = { version = "=0.3.23", features = ["env-filter"] }
