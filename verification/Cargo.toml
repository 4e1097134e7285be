[package]
name = "process_scheduler"
version = "0.1.0"
edition = "2021"
publish = false

[dependencies]
libc = "0.2"
users = "0.11"
serde = "1"
serde_derive = "1"
toml = "*"
