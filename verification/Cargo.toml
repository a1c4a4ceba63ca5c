[package]
name = "gbrs"
version = "0.1.0"
edition = "2021"
publish = false

[dependencies]
zstd = "*"
twox-hash = "*"
chrono = "*"
clap = { version = "*", features = ["derive"] }
anyhow = "*"
