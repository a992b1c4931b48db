[package]
name = "vidplayer"
version = "0.1.0"
edition = "2021"
publish = false

[dependencies]
rand = "0.8"
ringbuf = "0.4"
walkdir = "2"
serde = { version = "1", features = ["derive"] }
serde_json = "1"
uuid = "1"
dirs = "5"
bytemuck = "1"
tokio = { version = "1", features = ["rt-multi-thread"] }
image = { version = "0.25", default-features = false }
cpal = "0.15"
ffmpeg-next = "7"
