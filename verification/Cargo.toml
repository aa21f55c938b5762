[package]
name = "croncat_batch"
version = "0.1.0"
edition = "2021"
publish = false

[dependencies]
cosmrs = { version = "*", features = ["cosmwasm"] }
croncat-sdk-agents = "*"
croncat-sdk-factory = "*"
croncat-sdk-manager = "*"
croncat-sdk-tasks = "*"
serde = { version = "*", features = ["derive"] }
serde_json = "*"
tendermint-rpc = "*"
reqwest = { version = "*", default-features = false, features = ["json"] }
tokio = { version = "*", features = ["macros", "rt-multi-thread"] }
eyre = "*"
