[package]
name = "manymouser"
version = "0.1.0"
edition = "2021"
publish = false

[dependencies]
evdev = "*"
input-linux-sys = "*"
nix = { version = "*", features = ["fs"] }
