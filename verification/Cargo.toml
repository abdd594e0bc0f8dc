[package]
name = "app_errors"
version = "0.1.0"
edition = "2021"
publish = false

[dependencies]
hex = "*"
log = "*"
serde_json = "*"
reqwest = { version = "*", default-features = false, features = ["blocking"] }
