[package]
name = "realsense-rust"
version = "1.0.0"
edition = "2021"
publish = false

[dependencies]
realsense-sys = "*"
