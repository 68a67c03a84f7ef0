[package]
name = "unsynced"
version = "0.1.0"
edition = "2021"
publish = false

[dependencies]
anyhow = "*"
argh = "*"
attohttpc = { version = "*", default-features = false }
dirs-next = "*"
