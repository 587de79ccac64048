[package]
name = "priority_isolation"
version = "0.1.0"
edition = "2021"
publish = false

[dependencies]
libc = "0.2"
tokio = { version = "1", features = ["rt-multi-thread", "net", "io-util", "macros"] }
