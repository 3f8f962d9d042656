[package]
name = "ucie"
version = "0.1.0"
edition = "2021"
publish = false

[dependencies]
rust_decimal = "=1.43.0"
rust_decimal_macros = "=1.40.0"
serde = { version = "=1.0.229", features = ["derive"] }
derive-where = "=1.7.0"
approx = "=0.5.1"
itertools = "=0.12.1"
