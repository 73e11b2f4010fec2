[package]
name = "ido_tier"
version = "0.1.0"
edition = "2021"
publish = false

[dependencies]
secret-cosmwasm-std = { version = "=1.1.11", features = ["staking"] }
serde = { version = "=1.0.229", default-features = false, features = ["derive"] }
schemars = "=0.8.22"
secret-toolkit-storage = "=0.10.3"
secret-toolkit-snip20 = "=0.10.3"
secret-toolkit-snip721 = "=0.10.3"
secret-toolkit-utils = "=0.10.3"
