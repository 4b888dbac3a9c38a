[package]
name = "termvideo"
version = "0.1.0"
edition = "2021"
publish = false

[dependencies]
anyhow = "=1.0.104"
color-eyre = "=0.6.5"
crossterm = "=0.29.0"
ffmpeg-next = "=9.0.0"
image = { version = "=0.25.10", default-features = false }
ratatui = "=0.30.2"
ratatui-image = { version = "=11.1.0", default-features = false, features = ["crossterm", "image-defaults"] }
