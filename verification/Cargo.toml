[package]
name = "nanod"
version = "0.1.0"
edition = "2021"
publish = false

[dependencies]
heapless = "0.8"
image = { version = "0.25", default-features = false, features = ["png", "jpeg"] }
serde = { version = "1", features = ["derive"] }
serde_json = "1"
anyhow = "1"
thiserror = "1"
clap = { version = "4", features = ["derive"] }
log = "0.4"
env_logger = "0.11"
ctrlc = "3"
indicatif = "0.17"
serialport = { version = "4", default-features = false }
espflash = "4"
base64 = "0.22"
