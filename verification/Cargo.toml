[package]
name = "win-win"
version = "0.1.0"
edition = "2021"
publish = false

[dependencies]
winapi = { version = "0.3", features = ["winuser"] }
wio = "0.2"
