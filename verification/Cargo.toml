[package]
name = "meshweaver"
version = "0.1.0"
edition = "2021"
publish = false

[dependencies]
ultraviolet = { version = "=0.10.0", features = ["int", "bytemuck"] }
bytemuck = "=1.25.2"
wgpu = "=30.0.1"
winit = "=0.30.13"
pollster = "=1.0.1"
env_logger = "=0.11.11"
obj-rs = "=0.7.4"
ddsfile = "=0.6.0"
rayon = "=1.12.0"
