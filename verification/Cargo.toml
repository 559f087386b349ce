[package]
name = "sdf_text"
version = "0.1.0"
edition = "2021"
publish = false

[dependencies]
lazy_static = "1.4"
raylib = "=5.0.2"
