[package]
name = "gbemu"
version = "0.1.0"
edition = "2021"
publish = false

[dependencies]
bincode = "2"
clap = { version = "4", features = ["derive"] }
sdl3 = "*"
