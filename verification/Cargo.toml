[package]
name = "rev_store"
version = "0.1.0"
edition = "2021"
publish = false

[dependencies]
dashmap = "4.0"
tokio = { version = "1", default-features = false, features = ["rt", "sync", "time"] }
