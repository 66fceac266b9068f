[package]
name = "weaver"
version = "0.1.0"
edition = "2021"
publish = false

[dependencies]
rand = "=0.10.3"
url = "=2.5.8"
shellwords = "=1.1.0"
poll-promise = "=0.3.0"
reqwest = { version = "=0.13.5", default-features = false, features = ["blocking", "multipart", "query"] }
