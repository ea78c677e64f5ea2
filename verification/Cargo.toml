[package]
name = "snow64"
version = "0.1.0"
edition = "2021"
publish = false

[dependencies]
configparser = "=2.1.0"
image = { version = "=0.23.14", default-features = false, features = ["png"] }
log = "=0.4.35"
anyhow = "=1.0.104"
lazy_static = "=1.5.1"
rayon = "=1.12.0"
rhai = "=1.13.0"
winit = "=0.24.0"
pixels = "=0.3.0"
