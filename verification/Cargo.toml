[package]
name = "soulstone_installer"
version = "0.1.0"
edition = "2021"
publish = false

[dependencies]
ansi_term = "0.12"
dirs = "5"
reqwest = { version = "0.11", features = ["blocking", "json"] }
serde = { version = "1", features = ["derive"] }
serde_json = "1"
winreg = "0.50"
zip = "0.6"
