[package]
name = "chip8"
version = "0.1.0"
edition = "2021"
publish = false

[dependencies]
eframe = { version = "0.21", default-features = false, features = ["default_fonts", "glow"] }
rand = "0.8"
tinyfiledialogs = "3"
