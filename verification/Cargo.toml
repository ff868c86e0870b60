[package]
name = "video_compressor"
version = "0.1.0"
edition = "2021"
publish = false

[dependencies]
confy = "=0.6.1"
eframe = { version = "=0.32.3", default-features = false, features = ["glow", "default_fonts", "x11"] }
serde = { version = "=1.0.229", features = ["derive"] }
