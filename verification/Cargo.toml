[package]
name = "pam_sandboxed"
version = "0.2.0"
edition = "2021"
publish = false

[dependencies]
bincode = "1.3"
futures = "0.3"
tokio = { version = "1", features = ["net", "rt", "io-util"] }
