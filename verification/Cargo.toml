[package]
name = "removebg"
version = "0.1.0"
edition = "2021"
publish = false

[dependencies]
image = { version = "=0.24.9", default-features = false, features = ["png", "jpeg", "bmp", "tiff"] }
ndarray = "=0.15.6"
ort = { version = "=2.0.0-rc.2", default-features = false, features = ["ndarray"] }
ort-sys = { version = "=2.0.0-rc.2", default-features = false }
ureq = "=2.12.1"
dirs = "=5.0.1"
clap = { version = "=4.6.7", features = ["derive"] }
thiserror = "=1.0.69"
