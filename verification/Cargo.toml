[package]
name = "apple2"
version = "0.1.0"
edition = "2021"
publish = false

[dependencies]
env_logger = "*"
log = "*"
r6502 = "*"
sdl2 = { version = "*", features = ["image"] }
