[package]
name = "clearframe"
version = "0.1.0"
edition = "2021"
publish = false

[dependencies]
wgpu = { version = "=30.0.1", features = ["spirv"] }
winit = "=0.30.13"
pollster = "=1.0.1"
