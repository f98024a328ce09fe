[package]
name = "darwin-slot"
version = "0.1.0"
edition = "2021"
publish = false

[dependencies]
clap = { version = "4", features = ["derive"] }
colored = "*"
dialoguer = { version = "*", default-features = false }
serde = { version = "1", features = ["derive"] }
tabled = "*"
toml = "*"
