[package]
name = "ape"
version = "0.1.0"
edition = "2021"
publish = false

[dependencies]
anyhow = "1"
base64 = "0.22"
clap = { version = "4", features = ["derive", "env"] }
dotenv = "0.15"
enumset = "1"
indexmap = "2"
itertools = "0.12"
libloading = "0.8"
libretro-sys = "0.1"
parking_lot = "0.12"
serde = { version = "1", features = ["derive"] }
serde_json = "1"
sha1 = "0.10"
strum = { version = "0.26", features = ["derive"] }
