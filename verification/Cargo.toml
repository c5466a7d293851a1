[package]
name = "llmq"
version = "0.2.0"
edition = "2021"
publish = false

[dependencies]
crossterm = "0.28"
libc = "0.2"
serde = { version = "1", features = ["derive"] }
serde_json = "1"
shlex = "1"
toml = "0.8"
ureq = { version = "3", features = ["json"] }
