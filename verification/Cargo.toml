[package]
name = "trackscape"
version = "0.1.0"
edition = "2021"
publish = false

[dependencies]
rand = "0.8"
xxhash-rust = { version = "0.8", features = ["xxh3"] }
serde = { version = "1", features = ["derive"] }
