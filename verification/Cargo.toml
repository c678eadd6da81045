[package]
name = "camera_thread"
version = "0.1.0"
edition = "2021"
publish = false

[dependencies]
rscam = "*"
error-chain = "*"
