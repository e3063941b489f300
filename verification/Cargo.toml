[package]
name = "window_context"
version = "0.1.0"
edition = "2021"
publish = false

[dependencies]
winit = "0.30"
softbuffer = "0.4"
raw-window-handle = "0.6"
image = { version = "0.25", default-features = false, features = ["png"] }
