[package]
name = "block_producer"
version = "0.1.0"
edition = "2021"
publish = false

[dependencies]
rand = "=0.5.6"
serde = { version = "=1.0.229", features = ["derive"] }
slog = "=2.8.2"
ssz = "=0.1.2"
