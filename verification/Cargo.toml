[package]
name = "fake_tfs"
version = "0.1.0"
edition = "2021"
publish = false

[dependencies]
rand = "0.8"
serde = { version = "1", features = ["derive"] }
serde_json = "1"
url = "2"
reqwest = { version = "0.12", default-features = false, features = ["blocking", "json"] }
rocket = { version = "0.5", features = ["json"] }
