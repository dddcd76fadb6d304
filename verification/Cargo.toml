[package]
name = "reddit_watcher"
version = "0.1.0"
edition = "2021"
publish = false

[dependencies]
regex = "*"
anyhow = "*"
chrono = "*"
clap = { version = "*", features = ["derive"] }
env_logger = "*"
futures = "*"
lettre = "*"
log = "*"
maud = "*"
reqwest = { version = "*", features = ["json"] }
serde = { version = "*", features = ["derive"] }
serde_json = "*"
tokio = { version = "*", features = ["macros", "rt-multi-thread", "time"] }
tokio-retry = "*"
toml = "*"
roux = "*"
roux-stream = "*"
