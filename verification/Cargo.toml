[package]
name = "batch_sealer"
version = "0.1.0"
edition = "2021"
publish = false

[dependencies]
serde_urlencoded = "0.7"
anyhow = "1"
crossbeam-channel = "0.5"
