[package]
name = "raiden_channels"
version = "0.1.0"
edition = "2021"
publish = false

[dependencies]
web3 = { version = "0.19", default-features = false, features = ["signing"] }
rand_chacha = "0.3"
