[package]
name = "jsonlogic"
version = "0.1.0"
edition = "2021"
publish = false

[dependencies]
regex = "1"
serde_json = "1"
unicode-normalization = "0.1"
