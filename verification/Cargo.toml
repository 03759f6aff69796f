[package]
name = "tokio_linux_zio"
version = "0.1.0"
edition = "2021"
publish = false

[dependencies]
bytes = "1"
libc = "0.2"
nix = { version = "0.29", features = ["socket", "uio", "fs"] }
tokio = { version = "1", features = ["net", "rt", "io-util"] }
