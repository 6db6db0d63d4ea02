[package]
name = "bachelor_assurance"
version = "0.1.0"
edition = "2021"
publish = false

[dependencies]
libcrux = { version = "=0.0.6", default-features = false, features = ["std", "sha3", "hmac_drbg"] }
rand = "=0.10.3"
