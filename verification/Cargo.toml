[package]
name = "lemurs"
version = "0.1.0"
edition = "2021"
publish = false

[dependencies]
nix = { version = "=0.30.1", features = ["signal", "poll", "user", "process"] }
uzers = "=0.12.2"
rand = "=0.9.5"
pam-sys = "=0.5.6"
libc = "=0.2.190"
