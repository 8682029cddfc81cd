[package]
name = "overpass"
version = "0.1.0"
edition = "2021"
publish = false

[dependencies]
sha2 = "=0.10.9"
secp256k1 = { version = "=0.29.1", features = ["rand-std"] }
bitcoin = "=0.32.102"
bitcoin_hashes = "=0.14.101"
hex = "=0.4.3"
rand = "=0.8.8"
serde = { version = "=1.0.229", features = ["derive"] }
serde_json = "=1.0.154"
bincode = "=1.3.3"
thiserror = "=1.0.69"
parking_lot = "=0.12.5"
log = "=0.4.35"
bip39 = { version = "=2.2.2", features = ["rand"] }
keccak-hash = "=0.12.0"
bitcoincore-rpc = "=0.19.0"
