[package]
name = "renderer"
version = "0.1.0"
edition = "2021"
publish = false

[dependencies]
ash = "0.38"
ash-window = "0.13"
raw-window-handle = "0.6"
glam = "*"
serde = { version = "1", features = ["derive"] }
winit = "0.30"
