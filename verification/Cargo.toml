[package]
name = "keyrunes_rust_sdk"
version = "0.1.0"
edition = "2021"
publish = false

[dependencies]
serde_json = "1"
url = "2"
serde = { version = "1", features = ["derive"] }
reqwest = { version = "0.12", default-features = false }
tokio = { version = "1", features = ["rt-multi-thread", "macros", "sync"] }
thiserror = "1"
http = "1"
