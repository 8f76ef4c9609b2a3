[package]
name = "mmd"
version = "0.1.0"
edition = "2021"
publish = false

[dependencies]
anyhow = "=1.0.104"
libc = "=0.2.191"
log = "=0.4.35"
thiserror = "=1.0.69"
