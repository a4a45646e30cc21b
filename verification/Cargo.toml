[package]
name = "rakuyomi_core"
version = "0.1.0"
edition = "2021"
publish = false

[dependencies]
urlencoding = "*"
zip = { version = "*", default-features = false }
reqwest = { version = "*", default-features = false }
tokio = { version = "*", default-features = false, features = ["rt-multi-thread", "fs", "time"] }
serde = { version = "*", features = ["derive"] }
serde_json = "*"
once_cell = "*"
