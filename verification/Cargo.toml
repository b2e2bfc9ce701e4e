[package]
name = "knoobar"
version = "0.1.0"
edition = "2021"
publish = false

[dependencies]
lofty = "*"
rusqlite = { version = "*", features = ["bundled"] }
serde = { version = "1", features = ["derive"] }
serde_json = "1"
symphonia = { version = "0.5", features = ["all"] }
walkdir = "2"
crossbeam-queue = "0.3"
parking_lot = "0.12"
dirs = "*"
cpal = "*"
