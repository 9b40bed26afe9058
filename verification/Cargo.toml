[package]
name = "ffmpeg_input"
version = "0.1.0"
edition = "2021"
publish = false

[dependencies]
anyhow = "1"
crossbeam = "0.8"
parking_lot = "0.12"
log = "0.4"
ffmpeg-next = "*"
