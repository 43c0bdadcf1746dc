[package]
name = "capture_sync"
version = "0.1.0"
edition = "2021"
publish = false

[dependencies]
clap = { version = "4", features = ["derive"] }
cpal = "*"
winapi = { version = "0.3", features = ["winuser"] }
windows-capture = "*"
