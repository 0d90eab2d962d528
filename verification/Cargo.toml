[package]
name = "ffmpeg_shim"
version = "0.1.0"
edition = "2021"
publish = false

[dependencies]
ffmpeg-sys-next = { version = "*", default-features = false, features = ["avformat"] }
