[package]
name = "mpl-token-metadata"
version = "0.1.0"
edition = "2021"
publish = false

[dependencies]
borsh = "=0.9.3"
mpl-token-auth-rules = { version = "=0.2.5", features = ["no-entrypoint"] }
mpl-utils = "=0.0.6"
serde = { version = "1", features = ["derive"] }
serde_with = "=1.14.0"
solana-program = "=1.18.26"
spl-token = { version = "=3.5.0", features = ["no-entrypoint"] }
