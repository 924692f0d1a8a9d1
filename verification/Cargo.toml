[package]
name = "ai-sdk-core"
version = "0.1.0"
edition = "2021"
publish = false

[dependencies]
serde = { version = "1", features = ["derive"] }
serde_json = "1"
jsonschema = { version = "*", default-features = false }
base64 = "*"
thiserror = "*"
tokio = { version = "1", features = ["rt", "macros", "time", "sync"] }
tokio-util = "*"
tokio-stream = "*"
futures = "*"
futures-util = "*"
async-trait = "*"
async-stream = "*"
