[package]
name = "clickclack"
version = "0.1.0"
edition = "2021"
publish = false

[dependencies]
anyhow = "1"
clap = { version = "4", features = ["derive"] }
cocoa = "0.25"
dirs = "5"
env_logger = { version = "0.10", default-features = false }
log = "0.4"
objc = "0.2"
once_cell = "1"
parking_lot = "0.12"
plist = "1"
rdev = "0.5"
rodio = { version = "0.17", default-features = false, features = ["mp3"] }
serde = { version = "1", features = ["derive"] }
serde_json = "1"
toml = "0.8"
ureq = "2"
zip = { version = "0.6", default-features = false, features = ["deflate"] }
