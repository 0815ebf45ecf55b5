[package]
name = "blkpg"
version = "0.1.0"
edition = "2021"
publish = false

[dependencies]
rustix = "0.38"
