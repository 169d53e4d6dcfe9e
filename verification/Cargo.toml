[package]
name = "jexcel"
version = "0.1.0"
edition = "2021"
publish = false

[dependencies]
clap = { version = "4", features = ["derive"] }
crossterm = "*"
eyre = "*"
globset = "*"
image = { version = "0.25", default-features = false, features = ["png", "jpeg", "webp", "gif", "bmp", "tiff"] }
indicatif = "*"
rayon = "1"
thiserror = "*"
tracing = "0.1"
tracing-indicatif = "*"
tracing-subscriber = "*"
walkdir = "2"
