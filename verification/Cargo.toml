[package]
name = "mycli"
version = "0.1.0"
edition = "2021"
publish = false

[dependencies]
serde_json = "1"
reqwest = "0.12"
thiserror = "1"
tokio = { version = "1", features = ["macros", "rt-multi-thread"] }
