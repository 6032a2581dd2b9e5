[package]
name = "test_with_tokio"
version = "0.1.0"
edition = "2021"
publish = false

[dependencies]
proc-macro2 = "1"
syn = { version = "1", features = ["full", "visit"] }
quote = "1"
