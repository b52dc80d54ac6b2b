[package]
name = "pipemux"
version = "0.1.0"
edition = "2021"
publish = false

[dependencies]
nix = { version = "0.26", features = ["poll", "fs"] }
smallvec = "=1.16.2"
