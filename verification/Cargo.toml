[package]
name = "storage_order"
version = "0.1.0"
edition = "2021"
publish = false

[dependencies]
elrond-wasm = "0.30"
elrond-wasm-node = "0.30"
