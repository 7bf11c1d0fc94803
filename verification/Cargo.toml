[package]
name = "groan"
version = "0.1.0"
edition = "2021"
publish = false

[dependencies]
async-openai = "0.23"
base64 = "0.22"
bytes = "1"
clap = { version = "4", features = ["derive", "env"] }
log = "0.4"
pretty_env_logger = "0.5"
serde = { version = "1", features = ["derive"] }
serde_json = "1"
tokio = { version = "1", features = ["full"] }
warp = "0.3"
