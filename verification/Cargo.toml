[package]
name = "neo-email"
version = "0.1.0"
edition = "2021"
publish = false

[dependencies]
hashbrown = "0.14"
log = "0.4"
rayon = "1"
serde = { version = "1", features = ["derive"] }
serde_json = "1"
tokio = { version = "1", features = ["net", "io-util", "time", "sync", "rt", "rt-multi-thread", "macros"] }
tokio-native-tls = "0.3"
trust-dns-resolver = "0.23"
