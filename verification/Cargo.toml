[package]
name = "network-p2p-types"
version = "0.1.0"
edition = "2021"
publish = false

[dependencies]
derive_more = "0.99"
libp2p = { version = "0.34", default-features = false, features = ["request-response"] }
rand = "0.7"
sc-peerset = "=3.0.0"
