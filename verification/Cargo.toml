[package]
name = "stork"
version = "0.1.0"
edition = "2021"
publish = false

[dependencies]
magic-wormhole = "0.7"
tokio = { version = "1", features = ["rt", "rt-multi-thread", "time", "macros"] }
async-std = "1"
anyhow = "1"
dirs-next = "2"
