[package]
name = "rustfm-scrobble"
version = "0.1.0"
edition = "2021"
publish = false

[dependencies]
curl = "0.4"
percent-encoding = "1.0"
rust-crypto = "0.2"
serde_json = "1.0"
