[package]
name = "screenshot_lib"
version = "0.1.0"
edition = "2021"
publish = false

[dependencies]
anyhow = "*"
memmap2 = "*"
tempfile = "*"
x11rb = { version = "*", features = ["shm", "damage"] }
