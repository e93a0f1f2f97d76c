[package]
name = "papercut"
version = "0.1.0"
edition = "2021"
publish = false

[dependencies]
bytemuck = { version = "=1.25.2", features = ["derive"] }
env_logger = "=0.11.11"
glam = "=0.21.3"
log = "=0.4.34"
pollster = "=1.0.1"
wgpu = "=0.14.2"
winit = "=0.27.5"
