[package]
name = "pop-container-builder"
version = "0.1.0"
edition = "2021"
publish = false

[dependencies]
clap = { version = "4", features = ["derive"] }
distinst = "*"
env_logger = "*"
log = "0.4"
sudo = "0.6"
users = "0.11"
