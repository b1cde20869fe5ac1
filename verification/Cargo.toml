[package]
name = "race_pool"
version = "0.1.0"
edition = "2021"
publish = false

[dependencies]
anyhow = "*"
clap = { version = "*", features = ["derive"] }
dirs = "*"
dotenvy = "*"
nix = { version = "*", features = ["signal"] }
tracing = "*"
tracing-journald = "*"
tracing-subscriber = { version = "*", features = ["env-filter"] }
