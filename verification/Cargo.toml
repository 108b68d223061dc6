[package]
name = "invoice_claim"
version = "0.1.0"
edition = "2021"
publish = false

[dependencies]
sha2 = "=0.10.9"
regex = "=1.13.1"
chrono = "=0.4.45"
serde_json = "=1.0.154"
solana-sdk = "=2.3.1"
reqwest = { version = "=0.12.28", default-features = false, features = ["json", "default-tls"] }
tokio = { version = "=1.54.1", features = ["rt-multi-thread", "macros", "time"] }
dotenvy = "=0.15.7"
