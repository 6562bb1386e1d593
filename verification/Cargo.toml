[package]
name = "pipr"
version = "0.1.0"
edition = "2021"
publish = false

[dependencies]
anyhow = "1"
crossbeam-channel = "0.5"
libc = "0.2"
wait-timeout = "0.2"
