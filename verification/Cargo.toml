[package]
name = "check_probes"
version = "0.1.0"
edition = "2021"
publish = false

[dependencies]
anyhow = "1"
http = "1"
httpdate = "1"
reqwest = { version = "0.12", default-features = false }
tokio = { version = "1", features = ["rt", "time"] }
url = "2"
yaml-rust = "0.4"
