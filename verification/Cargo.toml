[package]
name = "canister_utils"
version = "0.1.0"
edition = "2021"
publish = false

[dependencies]
b3-stable-structures = "=0.5.9"
candid = "=0.10.39"
ic-cdk = { version = "=0.12.3", features = ["transform-closure"] }
serde = { version = "=1.0.229", features = ["derive"] }
