[package]
name = "bevy_cs_managed"
version = "0.1.0"
edition = "2021"
publish = false

[dependencies]
bevy = { version = "0.17", default-features = false }
dirs = "*"
dunce = "*"
glob = "*"
hostfxr-sys = "*"
log = "*"
regex = "*"
serde = { version = "1", features = ["derive"] }
serde_json = "1"
serde-xml-rs = "*"
widestring = "*"
