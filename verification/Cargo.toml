[package]
name = "krunkit"
version = "0.1.0"
edition = "2021"
publish = false

[dependencies]
anyhow = "1"
clap = { version = "4", features = ["derive"] }
cocoa = "*"
core-foundation = "*"
core-graphics = "*"
env_logger = "*"
log = "0.4"
mac_address = "1"
objc = "*"
objc2-io-kit = "*"
regex = "1"
sysinfo = "*"
