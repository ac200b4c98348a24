[package]
name = "copy_crab"
version = "0.1.0"
edition = "2021"
publish = false

[dependencies]
anyhow = "1"
colored = "*"
inquire = "*"
rfd = "*"
serde_json = "1"
