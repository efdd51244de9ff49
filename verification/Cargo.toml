[package]
name = "tenzro_ledger"
version = "0.1.0"
edition = "2021"
publish = false

[dependencies]
chrono = { version = "0.4", features = ["serde"] }
clap = { version = "4", features = ["derive"] }
env_logger = "*"
log = "0.4"
pqcrypto-dilithium = "0.5"
pqcrypto-traits = "0.3"
serde = { version = "1", features = ["derive"] }
thiserror = "*"
uuid = { version = "1", features = ["v4", "serde"] }
