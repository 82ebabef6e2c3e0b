[package]
name = "rendercore"
version = "0.1.0"
edition = "2021"
publish = false

[dependencies]
bytemuck = "1"
cgmath = "0.18"
env_logger = "0.10"
image = { version = "0.24", default-features = false, features = ["png", "jpeg"] }
pollster = "0.3"
wgpu = "0.16"
winit = "0.28"
