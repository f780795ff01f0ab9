[package]
name = "x3"
version = "0.1.0"
edition = "2021"
publish = false

[dependencies]
wgpu = "23"
winit = "0.30"
ouroboros = "0.18"
tokio = { version = "1", features = ["rt-multi-thread"] }
tracing = "0.1"
tracing-subscriber = "0.3"
anyhow = "1"
