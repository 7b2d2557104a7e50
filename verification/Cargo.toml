[package]
name = "reallyme_cose"
version = "0.2.0"
edition = "2021"
publish = false

[dependencies]
ciborium = "=0.2.2"
coset = "=0.4.2"
thiserror = "=2.0.21"
zeroize = "=1.9.1"
