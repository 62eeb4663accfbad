[package]
name = "guarded_state"
version = "0.1.0"
edition = "2021"
publish = false

[dependencies]
scopeguard = "1"
winreg = "0.52"
