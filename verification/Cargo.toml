[package]
name = "gridlock"
version = "0.1.0"
edition = "2021"
publish = false

[dependencies]
hex2d = "1"
rand = "0.8"
macroquad = { version = "0.3", default-features = false }
once_cell = "1"
