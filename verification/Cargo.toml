[package]
name = "alfred"
version = "4.0.1"
edition = "2021"
publish = false

[dependencies]
chrono = "0.4"
reqwest = { version = "*", default-features = false, features = ["blocking"] }
semver = "0.9"
serde_json = "1"
url = "*"
