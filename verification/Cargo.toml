[package]
name = "create2_vanity"
version = "0.1.0"
edition = "2021"
publish = false

[dependencies]
hex = "0.4"
num_cpus = "1"
rand = "0.8"
rayon = "1"
tiny-keccak = { version = "2.0", features = ["keccak"] }
