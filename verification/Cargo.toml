[package]
name = "iced"
version = "0.1.0"
edition = "2021"
publish = false

[dependencies]
dodrio = "0.2"
futures = { version = "=0.3.34", features = ["thread-pool"] }
log = "=0.4.34"
winit = "=0.20.0"
