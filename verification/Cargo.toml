[package]
name = "tagloop"
version = "0.1.0"
edition = "2021"
publish = false

[dependencies]
anyhow = "*"
apriltag = "*"
mat2image = "*"
opencv = "*"
