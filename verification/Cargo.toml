[package]
name = "pair_stable_bluna"
version = "0.1.0"
edition = "2021"
publish = false

[dependencies]
astroport = "=1.2.0"
cosmwasm-std = "=1.0.1"
cw-storage-plus = "=0.13.4"
cw2 = "=0.13.4"
cw20 = "=0.13.4"
protobuf = "=2.28.0"
serde = { version = "=1.0.229", default-features = false, features = ["derive"] }
thiserror = "=1.0.69"

[dev-dependencies]
cosmwasm-bignumber = "=2.2.0"
