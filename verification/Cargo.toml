[package]
name = "zen_clock"
version = "0.1.0"
edition = "2021"
publish = false

[dependencies]
chrono = "0.4"
eframe = { version = "0.23", default-features = false, features = ["default_fonts", "glow"] }
lerp = "0.5"
