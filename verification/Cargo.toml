[package]
name = "op_zisk"
version = "0.1.0"
edition = "2021"
publish = false

[dependencies]
alloy-consensus = { version = "=1.0.41", default-features = false, features = ["std", "serde"] }
alloy-eips = { version = "=1.0.41", default-features = false }
alloy-primitives = { version = "=1.3.1", default-features = false, features = ["std", "serde"] }
alloy-rlp = "0.3"
alloy-signer-local = { version = "=1.0.41", default-features = false }
alloy-sol-types = { version = "=1.3.1", default-features = false, features = ["std"] }
alloy-tx-macros = "=1.0.41"
anyhow = "1"
bincode = "1.3.3"
clap = { version = "4", default-features = false, features = ["std", "derive", "help"] }
csv = "1"
dotenv = "0.15"
futures = { version = "0.3", default-features = false, features = ["std"] }
kona-genesis = { version = "0.4.5", default-features = false, features = ["serde"] }
kona-protocol = { version = "0.4.5", default-features = false }
op-alloy-consensus = { version = "=0.18.14", default-features = false }
rayon = "1"
reqwest = { version = "0.12", default-features = false, features = ["json"] }
ruint = "=1.16.0"
serde = { version = "1", features = ["derive"] }
serde_cbor = "0.11"
serde_json = "1"
serde_with = { version = "=3.12.0", default-features = false }
tokio = { version = "1", default-features = false, features = ["rt", "macros", "time"] }
tracing = { version = "0.1", default-features = false, features = ["std"] }
url = "=2.5.2"
