[package]
name = "frame_bridge"
version = "0.1.0"
edition = "2021"
publish = false

[dependencies]
ash = "0.38"
libc = "0.2"
