[package]
name = "planet_render"
version = "0.1.0"
edition = "2021"
publish = false

[dependencies]
bytemuck = { version = "1", features = ["derive"] }
cgmath = "0.18"
env_logger = { version = "0.10", default-features = false }
pollster = "0.3"
wgpu = { version = "0.19", default-features = false, features = ["wgsl"] }
