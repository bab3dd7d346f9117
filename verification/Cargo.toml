[package]
name = "mojave_transport"
version = "0.1.0"
edition = "2021"
publish = false

[dependencies]
multiaddr = "=0.18.2"
libp2p-identity = { version = "=0.2.14", features = ["ed25519", "peerid", "rand"] }
futures = "=0.3.34"
tracing = "=0.1.44"
moq-native = "=0.6.9"
