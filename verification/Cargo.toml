[package]
name = "mychain_precompiles"
version = "0.1.0"
edition = "2021"
publish = false

[dependencies]
evm = "0.35"
primitive-types = "0.11"

[dev-dependencies]
sha3 = "0.10"
