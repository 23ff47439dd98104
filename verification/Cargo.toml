[package]
name = "vscch"
version = "0.1.0"
edition = "2021"
publish = false

[dependencies]
anyhow = "1"
dirs = "*"
json5 = "*"
serde = { version = "1", features = ["derive"] }
serde_json = "1"
which = "*"
