[package]
name = "qtai"
version = "0.1.0"
edition = "2021"
publish = false

[dependencies]
anyhow = "*"
clap = { version = "*", features = ["derive"] }
colored = "*"
dialoguer = "*"
dirs = "*"
figment = { version = "*", features = ["toml"] }
indexmap = { version = "*", features = ["serde"] }
serde = { version = "*", features = ["derive"] }
toml = "*"
toml_edit = "*"
