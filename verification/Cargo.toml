[package]
name = "uhd"
version = "0.1.0"
edition = "2021"
publish = false

[dependencies]
anyhow = "1"
libc = "0.2"
num-complex = "0.4"
thiserror = "1"
