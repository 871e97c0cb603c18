[package]
name = "zodl_ironwood_migration"
version = "0.1.0"
edition = "2021"
publish = false

[dependencies]
orchard = "=0.16.0"
pczt = { version = "=0.10.0", features = ["io-finalizer", "prover", "signer", "spend-finalizer", "tx-extractor", "zcp-builder"] }
rand = { version = "=0.10.3", features = ["sys_rng"] }
rusqlite = { version = "=0.37.0", features = ["bundled"] }
serde = { version = "=1.0.229", features = ["derive"] }
serde_json = "=1.0.154"
uuid = { version = "=1.29.0", features = ["v4"] }
zcash_address = "=0.14.0"
zcash_client_backend = { version = "=0.25.0", features = ["orchard", "pczt", "unstable"] }
zcash_client_sqlite = { version = "=0.23.0", features = ["orchard", "transparent-inputs", "serde"] }
zcash_keys = { version = "=0.17.0", features = ["orchard", "transparent-inputs", "unstable"] }
zcash_primitives = "=0.31.0"
zcash_protocol = "=0.11.0"
zip321 = "=0.10.0"

[dev-dependencies]
secrecy = "=0.8.0"
zcash_transparent = { version = "=0.11.0", features = ["transparent-inputs"] }
