[package]
name = "zk_attestify"
version = "0.1.0"
edition = "2021"
publish = false

[dependencies]
alloy-sol-types = "=0.7.7"
chrono = "0.4"
clap = { version = "4", features = ["derive"] }
ethers-core = "=2.0.14"
serde = { version = "1", features = ["derive"] }
serde-wasm-bindgen = "0.6"
serde_json = "1"
sp1-zkvm = "*"
wasm-bindgen = "0.2"
