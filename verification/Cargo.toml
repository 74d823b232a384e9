[package]
name = "paymentchannel"
version = "0.1.0"
edition = "2021"
publish = false

[dependencies]
ink_env = "=3.4.0"
secp256k1 = { version = "=0.24.3", features = ["recovery"] }

[dev-dependencies]
sha2 = "0.10"
blake2 = "0.10"
parity-scale-codec = "3"
