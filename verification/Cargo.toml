[package]
name = "power_meter"
version = "0.1.0"
edition = "2021"
publish = false

[dependencies]
anyhow = "*"
axum = "*"
clap = { version = "*", features = ["derive"] }
clap_derive = "*"
crossbeam-utils = "*"
dirs = "*"
serde = { version = "*", features = ["derive"] }
serde_json = "*"
serialport = { version = "=4.10.1", default-features = false }
sml-rs = "=0.4.0"
sqlite = "=0.37.4"
tokio = { version = "*", features = ["rt", "net"] }
