[package]
name = "hedge_cli"
version = "0.1.0"
edition = "2021"
publish = false

[dependencies]
chrono = "*"
clap = { version = "*", features = ["derive"] }
clap_complete = "*"
home = "*"
reqwest = { version = "*", default-features = false, features = ["multipart"] }
serde = { version = "*", features = ["derive"] }
serde_json = "*"
serde_yaml = "*"
sqlite = "*"
sysinfo = "*"
tokio = { version = "*", features = ["rt-multi-thread", "macros", "fs", "time"] }
toml = "*"
