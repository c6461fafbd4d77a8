[package]
name = "ttytee"
version = "0.1.0"
edition = "2021"
publish = false

[dependencies]
clap = { version = "*", features = ["derive"] }
log = "*"
serialport = { version = "*", default-features = false }
simplelog = "*"
