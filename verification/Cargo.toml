[package]
name = "remawin"
version = "0.1.0"
edition = "2021"
publish = false

[dependencies]
time = "0.1"
serde = { version = "1.0", features = ["derive"] }
ron = "0.8"
winit = "0.19"
log = "0.4"
