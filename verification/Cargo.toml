[package]
name = "raft_demo3"
version = "0.1.0"
edition = "2021"
publish = false

[dependencies]
anyhow = "1"
clap = { version = "4", features = ["derive"] }
crossbeam-channel = "0.5"
ntex = { version = "2", features = ["tokio"] }
openraft = { version = "0.9", features = ["serde"] }
parking_lot = "0.12"
reqwest = { version = "0.12", default-features = false }
serde = { version = "1", features = ["derive"] }
serde_json = "1"
thiserror = "1"
tokio = { version = "1", features = ["full"] }
tracing = "0.1"
tracing-subscriber = { version = "0.3", features = ["env-filter"] }
volo = "*"
volo-thrift = "*"
