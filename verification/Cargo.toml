[package]
name = "app-surface"
version = "0.1.0"
edition = "2021"
publish = false

[dependencies]
wgpu = "=25.0.2"
winit = { version = "=0.30.13", default-features = false, features = ["rwh_06", "x11"] }
pollster = "=0.4.0"
image = { version = "0.25", default-features = false, features = ["png", "jpeg"] }
