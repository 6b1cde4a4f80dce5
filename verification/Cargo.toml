[package]
name = "gpt_toolbox"
version = "0.1.0"
edition = "2021"
publish = false

[dependencies]
nix = "*"
libc = "0.2"
