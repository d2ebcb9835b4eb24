[package]
name = "video_decoder"
version = "0.1.0"
edition = "2021"
publish = false

[dependencies]
ndk = { version = "0.6", features = ["media", "hardware_buffer"] }
ndk-sys = { version = "=0.3.0", features = ["test"] }
pollster = "=0.2.5"
raw-window-handle = "=0.3.4"
wgpu = "=0.10.2"
