[package]
name = "rpc_types"
version = "0.1.0"
edition = "2021"
publish = false

[dependencies]
console = "0.15"
fd-lock = "4"
indicatif = "0.17"
libc = "0.2"
log = "0.4"
semver = "1"
serde = { version = "1", features = ["derive"] }
signal-hook = "0.3"
solana-account-decoder-client-types = "2"
solana-clock = "2"
solana-fee-calculator = "2"
solana-inflation = "2"
solana-logger = "2"
solana-signature = "2"
solana-transaction-error = "2"
solana-transaction-status-client-types = "2"
solana-validator-exit = "2"
solana-version = "2"
thiserror = "2"

[dev-dependencies]
serde_json = "1"
