[package]
name = "hub"
version = "0.1.0"
edition = "2021"
publish = false

[dependencies]
image = "0.24"
webp = "0.2"
tokio = { version = "1", features = ["rt", "rt-multi-thread", "macros", "sync", "fs"] }
