[package]
name = "project_lily"
version = "0.1.0"
edition = "2021"
publish = false

[dependencies]
tokio = { version = "*", features = ["sync", "rt-multi-thread", "macros", "time"] }
shlex = "*"
chrono = "*"
clap = { version = "*", features = ["derive"] }
serde = { version = "*", features = ["derive"] }
serde_json = "*"
json = "*"
log = "*"
pretty_env_logger = "*"
reqwest = { version = "*", default-features = false }
