[package]
name = "chuks_ffmpeg"
version = "0.1.0"
edition = "2021"
publish = false

[dependencies]
ffmpeg-next = "=8.1.0"
