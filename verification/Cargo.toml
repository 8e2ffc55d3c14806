[package]
name = "raybind"
version = "0.1.0"
edition = "2021"
publish = false

[dependencies]
raylib-ffi = "=5.0.2"
