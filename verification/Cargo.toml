[package]
name = "topbar"
version = "0.1.0"
edition = "2021"
publish = false

[dependencies]
chrono = "0.4"
glob = "0.3"
walkdir = "2"
sysinfo = "0.30"
arboard = "3"
toml = "0.8"
serde = { version = "1", features = ["derive"] }
serde_json = "1"
ureq = "2"
dirs = "5"
log = "0.4"
env_logger = "0.11"
anyhow = "1"
thiserror = "1"
once_cell = "1"
parking_lot = "0.12"
