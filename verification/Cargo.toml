[package]
name = "aleo_agent"
version = "0.1.0"
edition = "2021"
publish = false

[dependencies]
anyhow = "=1.0.104"
indexmap = "=2.14.2"
once_cell = "=1.21.4"
rand = "=0.8.8"
rand_chacha = "=0.3.1"
snarkvm = { version = "=0.16.19", default-features = false, features = ["anyhow", "circuit", "colored", "console", "ledger", "rand", "serde_json", "synthesizer", "ureq", "utilities"] }
ureq = { version = "=2.12.1", features = ["json"] }
