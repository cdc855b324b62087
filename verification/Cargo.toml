[package]
name = "screen_capturer"
version = "0.1.0"
edition = "2021"
publish = false

[dependencies]
base64 = "0.21"
image = { version = "0.25", default-features = false, features = ["png"] }
tokio = { version = "1", features = ["rt-multi-thread", "sync", "macros"] }
warp = "0.3"
