[package]
name = "dharitri_contracts"
version = "0.1.0"
edition = "2021"
publish = false

[dependencies]
dharitri-sc = "*"
dharitri-sc-modules = "*"
dharitri-sc-wasm-adapter = "*"
