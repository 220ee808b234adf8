[package]
name = "lynx_runner"
version = "0.1.0"
edition = "2021"
publish = false

[dependencies]
kanal = "=0.1.1"
clap = { version = "=4.5.61", features = ["derive"] }
env_logger = "=0.11.11"
log = "=0.4.34"
ratatui = "=0.29.0"
rodio = "=0.20.1"
