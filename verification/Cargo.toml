[package]
name = "cosy"
version = "0.1.0"
edition = "2021"
publish = false

[dependencies]
mp4parse = "*"
image = { version = "*", default-features = false, features = ["png"] }
ash = "0.37"
ash-window = "0.12"
raw-window-handle = "0.5"
winit = "0.28"
anyhow = "1"
