[package]
name = "exmebus_gateway"
version = "0.1.0"
edition = "2021"
publish = false

[dependencies]
serde_json = "1"
paho-mqtt = "*"
clap = { version = "4", features = ["derive"] }
futures = "0.3"
async-std = "1"
log = "0.4"
env_logger = "*"

[dev-dependencies]
bincode = "1"
