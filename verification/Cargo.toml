[package]
name = "iced_video_player"
version = "0.1.0"
edition = "2021"
publish = false

[dependencies]
iced_wgpu = "=0.12.1"
parking_lot = "=0.12.5"
thiserror = "=1.0.69"
tracing = "=0.1.44"
video-rs = { version = "0.10", default-features = false }
