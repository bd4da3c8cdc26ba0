[package]
name = "pow_circuit"
version = "0.1.0"
edition = "2021"
publish = false

[dependencies]
halo2-base = { version = "*", features = ["test-utils"] }

[dev-dependencies]
num-bigint = { version = "0.4", features = ["rand"] }
num-traits = "0.2"
rand = "0.8"
