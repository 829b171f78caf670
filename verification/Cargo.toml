[package]
name = "pqc_kyber"
version = "0.1.0"
edition = "2021"
publish = false

[dependencies]
uuid = { version = "*", features = ["v4"] }
zeroize = "*"
pqcrypto-kyber = "*"
pqcrypto-traits = "*"
serde = { version = "*", features = ["derive"] }
serde_json = "*"
anyhow = "*"
thiserror = "*"
chrono = "*"
csv = "*"
rand = "*"
