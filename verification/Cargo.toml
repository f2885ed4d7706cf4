[package]
name = "shared_display"
version = "0.1.0"
edition = "2021"
publish = false

[dependencies]
askama = "0.12"
bytes = "1"
futures-util = "0.3"
percent-encoding = "2"
serde_json = "1"
thiserror = "1"
tokio = { version = "1", features = ["full"] }
tracing = "0.1"
tracing-subscriber = "0.3"
warp = "0.3"
