[package]
name = "llmx_delegate"
version = "0.1.0"
edition = "2021"
publish = false

[dependencies]
anyhow = "*"
async-channel = "*"
clap = { version = "*", features = ["derive"] }
dirs = "*"
serde = { version = "*", features = ["derive"] }
serde_json = "*"
shlex = "*"
tokio = { version = "*", features = ["rt-multi-thread", "sync", "macros", "time"] }
tokio-util = "*"
