[package]
name = "br_financial"
version = "0.1.0"
edition = "2021"
publish = false

[dependencies]
rust_decimal = { version = "1.39", features = ["maths"] }
serde = { version = "1", features = ["derive"] }
anyhow = "1"
