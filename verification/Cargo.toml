[package]
name = "magistratures"
version = "0.1.0"
edition = "2021"
publish = false

[dependencies]
markdown = "0.3"
csv = "1"
serde = "1"
