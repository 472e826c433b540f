[package]
name = "rust_reader"
version = "0.1.0"
edition = "2021"
publish = false

[dependencies]
crypto-hash = "*"
epub = "*"
mime = "*"
rusqlite = { version = "*", features = ["bundled"] }
scraper = "*"
serde = { version = "*", features = ["derive"] }
serde_json = "*"
serde_yml = "*"
