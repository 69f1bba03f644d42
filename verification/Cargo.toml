[package]
name = "block_signer"
version = "0.1.0"
edition = "2021"
publish = false

[dependencies]
alloy-primitives = { version = "=1.7.3", default-features = false, features = ["std"] }
alloy-rpc-client = { version = "=1.0.42", default-features = false }
alloy-signer = { version = "=1.0.42", default-features = false }
alloy-signer-local = { version = "=1.0.42", default-features = false }
alloy-transport = { version = "=1.0.42", default-features = false }
alloy-transport-http = { version = "=1.0.42", default-features = false, features = ["reqwest"] }
async-trait = "=0.1.92"
hex = "=0.4.3"
notify = { version = "=8.2.1", default-features = false }
op-alloy-rpc-types-engine = { version = "=0.20.0", default-features = false }
reqwest = { version = "=0.12.28", default-features = false, features = ["rustls-tls-native-roots"] }
ruint = { version = "=1.16.0", default-features = false }
rustls = { version = "=0.23.46", default-features = false, features = ["ring", "std", "tls12"] }
rustls-pemfile = "=2.2.0"
serde = { version = "=1.0.229", features = ["derive"] }
serde_json = "=1.0.154"
serde_with = { version = "=3.12.0", default-features = false }
tokio = { version = "1", features = ["rt", "sync"] }
tracing = "0.1"
url = "=2.5.8"
