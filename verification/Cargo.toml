[package]
name = "flatrun"
version = "0.1.0"
edition = "2021"
publish = false

[dependencies]
rand = "0.8"
rustix = { version = "0.38", features = ["process", "thread"] }
signal-hook = "0.3"
flatpak-unsandbox = "*"
libflatpak = "0.5"
tempfile = "3"
clap = { version = "4", features = ["derive"] }
log = "0.4"
env_logger = "0.11"
simple_logger = "5"
serde = { version = "1", features = ["derive"] }
indicatif = "0.17"
reqwest = { version = "0.12", features = ["blocking"] }
async-std = { version = "1", features = ["attributes"] }
ashpd = "0.8"
