[package]
name = "hatoba"
version = "0.1.0"
edition = "2021"
publish = false

[dependencies]
clap = { version = "4", features = ["derive"] }
crossterm = "*"
dialoguer = "*"
dirs = "*"
include_dir = "0.7"
rusqlite = { version = "*", features = ["bundled"] }
rusqlite_migration = "=2.5.0"
serde = { version = "1", features = ["derive"] }
toml = "*"
toml_edit = "*"
