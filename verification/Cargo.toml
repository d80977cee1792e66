[package]
name = "txledger"
version = "0.1.0"
edition = "2021"
publish = false

[dependencies]
csv = "*"
serde = { version = "*", features = ["derive"] }
rust_decimal = { version = "*", features = ["serde"] }
