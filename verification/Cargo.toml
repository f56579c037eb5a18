[package]
name = "dots"
version = "0.1.0"
edition = "2021"
publish = false

[dependencies]
anyhow = "*"
clap = { version = "*", features = ["derive"] }
derive_builder = "*"
dirs = "*"
git2 = { version = "*", default-features = false }
serde = { version = "*", features = ["derive"] }
toml = "*"
url = "*"
