[package]
name = "status_bar"
version = "0.1.0"
edition = "2021"
publish = false

[dependencies]
anyhow = "=1.0.104"
bytemuck = { version = "=1.25.2", features = ["derive"] }
calloop = "=0.14.5"
calloop-wayland-source = "=0.4.1"
env_logger = "=0.11.11"
pollster = "=0.3.0"
raw-window-handle = "=0.6.2"
wayland-client = { version = "=0.31.15", features = ["system", "dlopen"] }
wayland-protocols = { version = "=0.32.13", features = ["client", "unstable"] }
wayland-protocols-wlr = { version = "=0.3.12", features = ["client"] }
wgpu = "=24.0.5"
