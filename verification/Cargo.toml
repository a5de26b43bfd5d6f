[package]
name = "sddm_babysit"
version = "0.1.0"
edition = "2021"
publish = false

[dependencies]
nix = { version = "*", default-features = false, features = ["ptrace", "signal", "process"] }
sysinfo = { version = "*", default-features = false, features = ["system"] }
