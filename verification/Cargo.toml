[package]
name = "mcrw"
version = "0.1.0"
edition = "2021"
publish = false

[dependencies]
regex = "1"
mlua = { version = "0.10", features = ["lua54", "vendored", "serialize"] }
tokio = { version = "1", features = ["rt-multi-thread", "macros", "process", "io-util", "io-std", "sync"] }
serde_json = "1"
