[package]
name = "biscuit8"
version = "0.1.0"
edition = "2021"
publish = false

[dependencies]
argh = "0.1"
fastrand = "2"
rodio = { version = "0.17", default-features = false }
thiserror = "1"
winit = { version = "0.29", default-features = false, features = ["x11", "rwh_06"] }
