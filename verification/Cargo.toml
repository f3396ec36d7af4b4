[package]
name = "sensirion_gas_index_algorithm"
version = "0.1.0"
edition = "2021"
publish = false

[dependencies]
libm = "0.2"
