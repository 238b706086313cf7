[package]
name = "draft_store"
version = "0.1.0"
edition = "2021"
publish = false

[dependencies]
cosmwasm-std = "1.5"
schemars = "0.8"
serde = { version = "1", default-features = false, features = ["derive"] }
