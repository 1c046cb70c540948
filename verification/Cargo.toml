[package]
name = "leela_circuit"
version = "0.1.0"
edition = "2021"
publish = false

[dependencies]
poseidon-rs = "=0.0.10"
ff_ce = "=0.11.0"
json = "=0.12.4"
