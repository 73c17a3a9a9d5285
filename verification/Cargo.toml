[package]
name = "tinyserve"
version = "0.1.0"
edition = "2021"

[dependencies]
mime_guess = "=2.0.5"
nix = { version = "=0.31.3", features = ["socket", "signal", "process", "net"] }
num_cpus = "=1.17.0"
