[package]
name = "session_hub"
version = "0.1.0"
edition = "2021"
publish = false

[dependencies]
chrono = "0.4"
futures-util = "0.3"
rand = "0.9"
tokio = { version = "1", features = ["full"] }
uuid = "1"
warp = "0.3"
