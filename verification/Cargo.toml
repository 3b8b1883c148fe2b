[package]
name = "desk_control"
version = "0.1.0"
edition = "2021"
publish = false

[dependencies]
btleplug = "*"
clap = { version = "*", features = ["derive"] }
env_logger = "*"
futures = "*"
log = "*"
thiserror = "*"
tokio = { version = "*", features = ["rt-multi-thread", "macros", "time", "sync"] }
