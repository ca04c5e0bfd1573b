[package]
name = "nes"
version = "0.1.0"
edition = "2021"
publish = false

[dependencies]
config = { version = "*", default-features = false, features = ["toml"] }
image = { version = "*", default-features = false, features = ["png"] }
lazy_static = "*"
sdl2 = "*"
