[package]
name = "auction_engine"
version = "0.1.0"
edition = "2021"
publish = false

[dependencies]
soroban-sdk = "=20.5.0"
soroban-kit = "=0.1.11"
