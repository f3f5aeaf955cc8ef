[package]
name = "chiselstore_rpc"
version = "0.1.0"
edition = "2021"
publish = false

[dependencies]
async-mutex = "1.4"
async-trait = "0.1"
crossbeam = "0.8"
derivative = "2.2"
prost = "0.9"
tokio = { version = "1", features = ["rt", "macros"] }
tonic = "0.6"
