[package]
name = "video_library"
version = "0.1.0"
edition = "2021"
publish = false

[dependencies]
chrono = "0.4"
fake = "*"
log = "0.4"
once_cell = "1"
parking_lot = "0.12"
serde = { version = "1", features = ["derive"] }
serde_json = "1"
tantivy = "0.24"
uuid = { version = "1", features = ["v4", "serde"] }
