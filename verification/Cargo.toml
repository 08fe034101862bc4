[package]
name = "wsl_cwd"
version = "0.1.0"
edition = "2021"
publish = false

[dependencies]
arboard = { version = "3", default-features = false }
msgbox = "*"
