[package]
name = "solx-slang"
version = "0.1.0"
edition = "2021"
publish = false

[dependencies]
anyhow = "=1.0.104"
num-bigint = "=0.4.8"
sha3 = "=0.10.9"
