[package]
name = "frame_input"
version = "0.1.0"
edition = "2021"
publish = false

[dependencies]
winit = { version = "0.26", default-features = false, features = ["x11"] }
