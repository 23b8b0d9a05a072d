[package]
name = "rpc_ingest"
version = "0.1.0"
edition = "2021"
publish = false

[dependencies]
serde = { version = "=1.0.229", features = ["derive"] }
serde_json = { version = "=1.0.151", features = ["raw_value"] }
smallvec = { version = "=1.16.2", features = ["serde"] }
bs58 = "=0.5.1"
mlua = { version = "=0.12.2", features = ["lua54", "vendored"] }
