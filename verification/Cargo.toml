[package]
name = "pbinfo"
version = "0.1.0"
edition = "2021"
publish = false

[dependencies]
regex = "1"
reqwest = { version = "0.11", features = ["blocking", "json"] }
