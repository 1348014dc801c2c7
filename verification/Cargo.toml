[package]
name = "route96"
version = "0.1.0"
edition = "2021"
publish = false

[dependencies]
nostr = { version = "=0.45.5", features = ["os-rng"] }
base64 = "=0.23.1"
hex = "=0.4.3"
sha2 = "=0.11.0"
