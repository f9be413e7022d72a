[package]
name = "chip8"
version = "0.1.0"
edition = "2021"
publish = false

[dependencies]
rand = "0.8"
env_logger = "0.11"
eframe = { version = "0.29", default-features = false, features = ["default_fonts", "glow", "x11"] }
