[package]
name = "telephony_core"
version = "0.1.0"
edition = "2021"
publish = false

[dependencies]
anyhow = "1"
chrono = "0.4"
clap = { version = "4", features = ["derive"] }
env_logger = "*"
hound = "*"
log = "0.4"
serde = { version = "1", features = ["derive"] }
toml = "*"
