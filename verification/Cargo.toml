[package]
name = "comrade"
version = "0.5.0"
edition = "2021"
publish = false

[dependencies]
clap = { version = "*", features = ["derive"] }
colored = "*"
dirs = "*"
git2 = { version = "*", default-features = false }
serde = { version = "*", features = ["derive"] }
toml = "*"
