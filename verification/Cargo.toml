[package]
name = "proofnet"
version = "0.1.0"
edition = "2021"
publish = false

[dependencies]
sha2 = "0.10"
ed25519-dalek = "2"
bs58 = "0.5"
uuid = { version = "1", features = ["v4"] }
k256 = { version = "0.13", features = ["ecdsa"] }
tiny-keccak = { version = "2", features = ["keccak"] }
tonic = { version = "0.12", features = ["tls"] }
rustls = "0.23"
