[package]
name = "espnow_msg"
version = "0.1.0"
edition = "2021"
publish = false

[dependencies]
heapless = "0.9"
postcard = "1"
serde = { version = "1", features = ["derive"] }
