[package]
name = "sysvoice_rec"
version = "0.1.0"
edition = "2021"
publish = false

[dependencies]
anyhow = "1"
crossbeam-channel = "0.5"
dirs = "5"
env_logger = "0.11"
hound = "3.5"
log = "0.4"
serde = { version = "1", features = ["derive"] }
serde_json = "1"
which = "6"
