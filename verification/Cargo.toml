[package]
name = "tide"
version = "0.1.0"
edition = "2021"
publish = false

[dependencies]
anyhow = "1"
chrono = "0.4"
clap = { version = "4", features = ["derive"] }
colored = "*"
dialoguer = "*"
dirs = "*"
futures = "0.3"
indicatif = "*"
notify-rust = "4"
reqwest = "*"
serde = { version = "1", features = ["derive"] }
shellexpand = "3"
thiserror = "*"
tokio = { version = "1", features = ["full"] }
toml = "*"
which = "*"
