[package]
name = "render_harness"
version = "0.1.0"
edition = "2021"
publish = false

[dependencies]
anyhow = "=1.0.104"
bytemuck = { version = "=1.25.2", features = ["derive"] }
env_logger = "=0.9.3"
image = "=0.23.14"
log = "=0.4.34"
objc = "=0.2.7"
pollster = "=0.2.5"
raw-window-handle = "=0.4.3"
rokol = "=0.4.0"
sdl2 = { version = "=0.35.2", features = ["raw-window-handle"] }
vek = { version = "=0.15.10", features = ["bytemuck"] }
wgpu = "=0.12.0"
