[package]
name = "coercible_errors"
version = "0.1.0"
edition = "2021"
publish = false

[dependencies]
error-chain = { version = "0.12", default-features = false }
