[package]
name = "cutelights"
version = "0.1.0"
edition = "2021"
publish = false

[dependencies]
tokio = { version = "*", features = ["net", "rt", "rt-multi-thread", "macros", "time"] }

[dev-dependencies]
serde_json = "*"
