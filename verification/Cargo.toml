[package]
name = "opencode_desktop"
version = "0.1.0"
edition = "2021"
publish = false

[dependencies]
uuid = { version = "1", features = ["v4"] }
tokio = { version = "1", features = ["rt", "sync", "time"] }
futures = "0.3"
dirs = "*"
serde = { version = "1", features = ["derive"] }
