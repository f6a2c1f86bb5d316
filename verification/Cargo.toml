[package]
name = "ray_tracer"
version = "0.1.0"
edition = "2021"
publish = false

[dependencies]
cgmath = "0.18"
winit = { version = "0.30", default-features = false, features = ["rwh_06", "x11"] }
