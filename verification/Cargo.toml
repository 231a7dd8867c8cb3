[package]
name = "cursor_pro_helper"
version = "0.1.0"
edition = "2021"
publish = false

[dependencies]
regex = "*"
rand = "*"
uuid = { version = "*", features = ["v4"] }
serde_json = "*"
dirs = "*"
rusqlite = { version = "*", features = ["bundled"] }
reqwest = { version = "*", default-features = false, features = ["blocking"] }
