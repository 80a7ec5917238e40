[package]
name = "acuity_runtime"
version = "0.1.0"
edition = "2021"
publish = false

[dependencies]
sp-core = { version = "=43.0.0", default-features = false, features = ["serde"] }
sp-keyring = { version = "=49.0.0", default-features = false }
serde_json = "=1.0.154"
sp-api = { version = "=44.0.0", default-features = false }
sp-block-builder = { version = "=44.0.0", default-features = false }
sp-transaction-pool = { version = "=44.0.0", default-features = false }
sp-offchain = { version = "=44.0.0", default-features = false }
sp-session = { version = "=46.0.0", default-features = false }
sp-consensus-aura = { version = "=0.50.0", default-features = false }
sp-genesis-builder = { version = "=0.25.0", default-features = false }
frame-system-rpc-runtime-api = { version = "=44.0.0", default-features = false }
cumulus-primitives-core = { version = "=0.27.0", default-features = false }
pallet-transaction-payment-rpc-runtime-api = { version = "=50.0.0", default-features = false }
