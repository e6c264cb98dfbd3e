[package]
name = "plxt"
version = "0.1.0"
edition = "2021"
publish = false

[dependencies]
taplo = "*"
serde = { version = "*", features = ["derive"] }
serde_json = "*"
clap = { version = "*", features = ["derive", "env"] }
anyhow = "*"
