[package]
name = "quad_renderer"
version = "0.1.0"
edition = "2021"
publish = false

[dependencies]
bytemuck = { version = "=1.25.2", features = ["derive"] }
cgmath = "=0.18.0"
env_logger = "=0.8.4"
futures = "=0.3.34"
rand = "=0.8.8"
wgpu = "=0.7.1"
winit = "=0.24.0"
