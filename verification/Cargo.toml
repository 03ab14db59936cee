[package]
name = "rendercore"
version = "0.1.0"
edition = "2021"
publish = false

[dependencies]
gl = "=0.14.0"
rand = "=0.10.3"
sdl2 = "=0.38.0"
