[package]
name = "mmrs"
version = "0.1.0"
edition = "2021"
publish = false

[dependencies]
reqwest = { version = "*", default-features = false }
tokio = { version = "*", features = ["rt-multi-thread", "macros"] }

[dev-dependencies]
serde_json = "*"
