[package]
name = "zjs"
version = "0.1.0"
edition = "2021"
publish = false

[dependencies]
dashmap = "*"
tokio = { version = "*", features = ["rt", "rt-multi-thread", "macros", "fs", "io-util", "sync"] }
v8 = "*"
