[package]
name = "redis_streams"
version = "0.1.0"
edition = "2021"
publish = false

[dependencies]
redis = { version = "0.15", default-features = false }
