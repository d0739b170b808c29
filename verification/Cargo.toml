[package]
name = "mdcheck-ng"
version = "0.1.0"
edition = "2021"
publish = false

[dependencies]
anyhow = "1"
chrono = "0.4"
croner = "2"
ctrlc = "3"
figment = { version = "0.10", features = ["toml", "env"] }
humantime-serde = "1"
ioprio = "*"
log = "0.4"
pretty_env_logger = "0.5"
rustix = { version = "*", features = ["process"] }
serde = { version = "1", features = ["derive"] }
sysinfo = "*"
