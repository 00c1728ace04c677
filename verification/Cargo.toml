[package]
name = "songdle"
version = "0.1.0"
edition = "2021"
publish = false

[dependencies]
serde_json = "1"
aws-config = "1"
aws-sdk-dynamodb = "1"
tokio = { version = "1", features = ["rt-multi-thread"] }
dioxus = { version = "0.6", features = ["router", "fullstack", "server"] }
