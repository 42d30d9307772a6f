[package]
name = "cuckoo_miner"
version = "0.1.0"
edition = "2021"
publish = false

[dependencies]
blake2-rfc = "*"
tiny-keccak = { version = "*", features = ["sha3"] }
rand = "0.8"
libloading = "*"
