[package]
name = "litep2p"
version = "0.1.0"
edition = "2021"
publish = false

[dependencies]
futures = "*"
multiaddr = "*"
tokio = { version = "*", features = ["macros", "net", "rt", "rt-multi-thread", "sync", "time"] }
trust-dns-resolver = "*"
