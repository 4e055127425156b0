[package]
name = "chain_genesis"
version = "0.1.0"
edition = "2021"
publish = false

[dependencies]
sp-core = "=2.0.1"
sp-runtime = "=2.0.1"
sp-finality-grandpa = "=2.0.1"
sp-consensus-babe = "=0.8.1"
substrate-bip39 = "=0.4.4"
