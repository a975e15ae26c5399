[package]
name = "scaffold"
version = "0.1.0"
edition = "2021"
publish = false

[dependencies]
clap = "4.5"
colored = "2"
dirs = "5"
env_logger = "0.11"
eyre = "0.6"
log = "0.4"
serde = { version = "1.0", features = ["derive"] }
serde_yaml = "0.9"
