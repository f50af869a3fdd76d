[package]
name = "trade_verifier"
version = "0.1.0"
edition = "2021"
publish = false

[dependencies]
tiny-keccak = { version = "2", features = ["keccak"] }
anyhow = "1"
async-trait = "0.1"
atty = "0.2"
chrono = { version = "0.4", default-features = false, features = ["clock"] }
clap = { version = "4", features = ["derive", "env"] }
console-subscriber = "0.4"
prometheus = "0.13"
prometheus-metric-storage = "0.5"
time = { version = "0.3", features = ["macros", "formatting"] }
tokio = { version = "1", features = ["macros", "rt-multi-thread", "signal", "sync", "time"] }
tracing = "0.1"
tracing-subscriber = { version = "0.3", features = ["env-filter", "fmt", "json", "time"] }
