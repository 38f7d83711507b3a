[package]
name = "bdk-ldk-sample"
version = "0.1.0"
edition = "2021"
publish = false

[dependencies]
bdk = { version = "=0.14.0", default-features = false, features = ["electrum"] }
bitcoin = "=0.27.1"
bitcoin-bech32 = "=0.12.1"
lightning = "=0.0.106"
lightning-background-processor = "=0.0.106"
lightning-invoice = "0.14"
lightning-net-tokio = "=0.0.106"
lightning-persister = "=0.0.106"
rand = "=0.4.6"
tokio = { version = "1", features = ["io-util", "macros", "rt", "rt-multi-thread", "sync", "net", "time"] }
