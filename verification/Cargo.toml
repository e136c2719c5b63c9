[package]
name = "screen_context"
version = "0.1.0"
edition = "2021"
publish = false

[dependencies]
wgpu = { version = "=25.0.2", default-features = false, features = ["vulkan", "gles"] }
winit = { version = "=0.30.13", default-features = false, features = ["rwh_06", "x11"] }
pollster = "=0.4.0"
