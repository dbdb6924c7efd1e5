[package]
name = "mio"
version = "0.1.0"
edition = "2021"
publish = false

[dependencies]
nix = { version = "0.26", features = ["event", "socket", "net", "uio"] }

[dev-dependencies]
tempdir = "0.3"
