[package]
name = "engine_metrics"
version = "0.1.0"
edition = "2021"
publish = false

[dependencies]
prometheus = { version = "*", default-features = false }
rocksdb = { version = "*", default-features = false }
