[package]
name = "chikachika"
version = "0.1.0"
edition = "2021"
publish = false

[dependencies]
uuid = { version = "1", features = ["v4", "serde"] }
serde = { version = "1", features = ["derive"] }
serde_json = "1"
tempfile = "3"
directories = "5"
tokio = { version = "1", features = ["rt", "net", "sync", "time", "macros"] }
axum = "0.7"
async-stream = "0.3"
