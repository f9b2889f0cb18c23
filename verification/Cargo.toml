[package]
name = "sealer"
version = "0.1.0"
edition = "2021"
publish = false

[dependencies]
env_logger = "*"
ethercrab = "*"
log = "*"
signal-hook = "*"
tokio = { version = "*", features = ["rt-multi-thread", "macros", "time", "sync"] }
