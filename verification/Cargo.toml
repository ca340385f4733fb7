[package]
name = "transcode_progress"
version = "0.1.0"
edition = "2021"
publish = false

[dependencies]
mp4 = "*"
serde = { version = "*", features = ["derive"] }
shared_child = "*"
tokio = { version = "*", features = ["rt-multi-thread", "macros"] }
