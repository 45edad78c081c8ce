[package]
name = "fast_async_trait"
version = "0.1.0"
edition = "2021"
publish = false

[dependencies]
proc-macro2 = { version = "=1.0.107", default-features = false }
quote = { version = "=1.0.47", default-features = false }
syn = { version = "=1.0.109", default-features = false, features = ["full", "parsing", "printing"] }
