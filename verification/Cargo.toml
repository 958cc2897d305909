[package]
name = "streamflow_analytics"
version = "0.1.0"
edition = "2021"
publish = false

[dependencies]
borsh = "0.9"
solana-program = "1.14"
serde = { version = "1", features = ["derive"] }
serde_json = "1"
tokio = { version = "1", features = ["rt-multi-thread", "macros", "time"] }
reqwest = "0.11"
redis = { version = "0.23", features = ["tokio-comp"] }
actix-web = "4"
actix-cors = "0.6"
clokwerk = "0.4"
