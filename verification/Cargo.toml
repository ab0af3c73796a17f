[package]
name = "gobbler"
version = "0.1.0"
edition = "2021"
publish = false

[dependencies]
glob = "*"
tokio = { version = "*", features = ["rt-multi-thread", "macros", "signal", "time", "sync"] }
clap = { version = "*", features = ["derive", "env"] }
daemonize = "*"
env_logger = "*"
log = "*"
unix-named-pipe = "*"
lazy_static = "*"
scopeguard = "*"
futures = "*"
