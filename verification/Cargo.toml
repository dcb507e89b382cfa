[package]
name = "ahcontrol"
version = "0.1.0"
edition = "2021"
publish = false

[dependencies]
clap = { version = "4", features = ["derive"] }
eyre = "0.6"
rustypot = "=1.5.0"
serde = { version = "1", features = ["derive"] }
serialport = { version = "4", default-features = false }
toml = "0.8"
tracing = "0.1"
