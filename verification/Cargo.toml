[package]
name = "datafusion"
version = "0.1.0"
edition = "2021"
publish = false

[dependencies]
arrow = { version = "*", default-features = false }
async-trait = "*"
futures = "*"
