[package]
name = "recbor"
version = "0.1.0"
edition = "2021"
publish = false

[dependencies]
cbor-data = "*"
cborpath = "*"
libc = "*"
redis-module = "*"

[dev-dependencies]
cbor-diag = "*"
