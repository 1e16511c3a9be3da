[package]
name = "cb-crypto"
version = "0.1.0"
edition = "2021"
publish = false

[dependencies]
alloy-rpc-types-beacon = "0.1"
blst = "0.3"
rand = "0.8"
tree_hash = "0.5"
