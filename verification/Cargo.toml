[package]
name = "dbview"
version = "0.1.0"
edition = "2021"
publish = false

[dependencies]
anyhow = "1"
clap = { version = "4", features = ["derive"] }
colored = "2"
comfy-table = "7"
num-format = "0.4"
rusqlite = { version = "*", features = ["bundled"] }
