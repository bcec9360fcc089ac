[package]
name = "agent-devex"
version = "0.1.0"
edition = "2021"
publish = false

[dependencies]
anyhow = "=1.0.104"
clap = { version = "=4.6.7", features = ["derive"] }
dotenvy = "=0.15.7"
human-panic = "=2.0.8"
rust-embed = { version = "=8.13.0", features = ["include-exclude", "interpolate-folder-path"] }
serde = { version = "=1.0.229", features = ["derive"] }
serde_derive = "=1.0.229"
thiserror = "=2.0.21"
toml = "=0.8.23"
tracing = "=0.1.44"
tracing-subscriber = { version = "=0.3.23", features = ["env-filter", "fmt"] }
