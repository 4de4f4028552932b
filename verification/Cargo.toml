[package]
name = "bootstrap_cache"
version = "0.1.0"
edition = "2021"
publish = false

[dependencies]
anyhow = "*"
async-std = "*"
directories = "*"
reqwest = { version = "*", default-features = false }
serde_json = "*"
