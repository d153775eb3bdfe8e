[package]
name = "sugarloaf"
version = "0.1.0"
edition = "2021"
publish = false

[dependencies]
cosmic-text = "=0.10.0"
wgpu = "=0.17.2"
winit = { version = "=0.28.7", default-features = false, features = ["x11"] }
