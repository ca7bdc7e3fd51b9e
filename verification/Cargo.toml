[package]
name = "listui"
version = "0.1.0"
edition = "2021"
publish = false

[dependencies]
bytemuck = "=1.25.2"
env_logger = "=0.11.11"
flax = "=0.7.1"
glam = "=0.34.1"
glyphon = "=0.12.0"
log = "=0.4.34"
pollster = "=1.0.1"
sdl2 = { version = "=0.38.0", features = ["raw-window-handle"] }
wgpu = "=30.0.1"
