[package]
name = "three_body"
version = "0.1.0"
edition = "2021"
publish = false

[dependencies]
fastrand = "2"
once_cell = "1"
ultraviolet = { version = "0.9", features = ["f64"] }
