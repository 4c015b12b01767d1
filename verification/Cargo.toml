[package]
name = "lighter_circuit"
version = "0.1.0"
edition = "2021"
publish = false

[dependencies]
num = "0.4"
serde = { version = "1", features = ["derive"] }
anyhow = "1"
hex = "0.4"
itertools = "0.14"
log = "0.4"
rand = "0.8"
