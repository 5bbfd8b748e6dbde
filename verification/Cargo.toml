[package]
name = "yard"
version = "0.2.6"
edition = "2021"
publish = false

[dependencies]
anyhow = "1"
clap = { version = "4", features = ["derive"] }
dirs = "*"
regex = "1"
serde_yaml = "0.9"
tera = { version = "1", default-features = false }
