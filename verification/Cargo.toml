[package]
name = "ide_backend"
version = "0.1.0"
edition = "2021"
publish = false

[dependencies]
anyhow = "1"
git2 = "0.19"
keyring = "2"
log = "0.4"
notify = "6"
serde = { version = "1", features = ["derive"] }
walkdir = "2"
