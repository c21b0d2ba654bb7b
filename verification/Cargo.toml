[package]
name = "evergreen"
version = "0.1.0"
edition = "2021"
publish = false

[dependencies]
libp2p = { version = "0.56", features = ["tokio", "quic", "request-response", "cbor", "autonat", "gossipsub", "macros", "ed25519", "serde"] }
chrono = "0.4"
tokio = { version = "1", features = ["rt-multi-thread", "macros", "sync", "io-std", "io-util"] }
tokio-util = "0.7"
futures = "0.3"
serde = { version = "1", features = ["derive"] }
rand = "0.8"
thiserror = "2"
