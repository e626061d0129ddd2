[package]
name = "chip8_core"
version = "0.1.0"
edition = "2021"
publish = false

[dependencies]
chip8_base = "*"
log = "0.4"
rand = "0.8"
