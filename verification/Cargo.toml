[package]
name = "yucil"
version = "0.1.0"
edition = "2021"
publish = false

[dependencies]
google-youtube3 = "5"
serde_json = "1"
tokio = { version = "1", features = ["macros", "rt-multi-thread"] }
