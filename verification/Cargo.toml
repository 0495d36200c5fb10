[package]
name = "entropy"
version = "0.1.0"
edition = "2021"
publish = false

[dependencies]
num-bigint-dig = { version = "*", features = ["prime"] }
sha2 = "*"
