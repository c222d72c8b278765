[package]
name = "denunciation"
version = "0.1.0"
edition = "2021"
publish = false

[dependencies]
blake3 = { version = "1", default-features = false, features = ["pure"] }
ed25519-dalek = "2"
serde = { version = "1", features = ["derive"] }
