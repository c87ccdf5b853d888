[package]
name = "keepawake"
version = "2.1.1"
edition = "2021"
publish = false

[dependencies]
native-windows-gui = { version = "1", features = ["image-decoder"] }
winreg = "*"
