[package]
name = "dot_overlay"
version = "0.1.0"
edition = "2021"
publish = false

[dependencies]
image = { version = "*", default-features = false, features = ["ico", "bmp", "png"] }
tiny-skia = "*"
softbuffer = "*"
winit = "*"
