[package]
name = "spotifyctl"
version = "0.1.0"
edition = "2021"
publish = false

[dependencies]
chrono = "=0.4.45"
clap = "=4.6.7"
dirs = "=7.0.0"
log = "=0.4.34"
lovely_env_logger = "=0.6.2"
rspotify = { version = "=0.14.0", features = ["cli"] }
tokio = { version = "=1.54.1", features = ["macros", "rt-multi-thread"] }
