[package]
name = "nixos_install_tfg"
version = "0.1.0"
edition = "2021"
publish = false

[dependencies]
lexopt = "*"
nanologger = "*"
nojson = "*"
