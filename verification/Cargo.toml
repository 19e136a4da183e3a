[package]
name = "askbot"
version = "0.1.0"
edition = "2021"
publish = false

[dependencies]
anyhow = "*"
discord-flows = "*"
flowsnet-platform-sdk = "*"
log = "*"
rust-bert = "*"
serde_json = "*"
tch = "*"
tokio = { version = "*", features = ["macros", "rt"] }
