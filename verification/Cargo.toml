[package]
name = "ffmpeg_owl"
version = "0.1.0"
edition = "2021"
publish = false

[dependencies]
regex = "1"
lazy_static = "1"
iced = { version = "0.13", default-features = false, features = ["tiny-skia", "tokio"] }
rfd = "0.15"
tokio = { version = "1", features = ["full"] }
