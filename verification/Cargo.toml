[package]
name = "mozjpeg"
version = "0.1.0"
edition = "2021"
publish = false

[dependencies]
arrayvec = "=0.7.8"
mozjpeg-sys = { version = "=2.2.3", default-features = false, features = ["unwinding"] }
rgb = { version = "=0.8.53", default-features = false, features = ["as-bytes"] }
