[package]
name = "artemiss"
version = "0.1.0"
edition = "2021"
publish = false

[dependencies]
clap = { version = "*", features = ["derive"] }
dotenvy = "*"
env_logger = "*"
figment = { version = "*", features = ["env"] }
log = "*"
mysql = { version = "*", default-features = false, features = ["minimal"] }
reqwest = { version = "*", default-features = false }
serde = { version = "*", features = ["derive"] }
tokio = { version = "*", features = ["rt-multi-thread", "macros", "time", "sync", "signal"] }
