[package]
name = "simple-ica-controller"
version = "0.1.0"
edition = "2021"
publish = false

[dependencies]
cosmwasm-std = { version = "1", features = ["stargate", "ibc3"] }
cw-storage-plus = "0.13"
cw1-whitelist = { version = "0.13", features = ["library"] }
serde = { version = "1", default-features = false, features = ["derive"] }
thiserror = "1"
