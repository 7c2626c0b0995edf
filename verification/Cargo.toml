[package]
name = "coding_assistant"
version = "0.1.0"
edition = "2021"
publish = false

[dependencies]
async-openai = "0.17"
async-stream = "0.3"
chrono = "0.4"
dirs = "5"
futures = "0.3"
lazy_static = "1"
pin-utils = "0.1"
serde = { version = "1", features = ["derive"] }
serde_json = "1"
tokio = { version = "1", features = ["sync"] }
uuid = { version = "1", features = ["v4", "serde"] }
