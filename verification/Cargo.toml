[package]
name = "zclone_core"
version = "0.1.0"
edition = "2021"
publish = false

[dependencies]
tokio = { version = "1", features = ["sync", "rt-multi-thread", "time", "macros"] }
uuid = { version = "1", features = ["v4"] }
chrono = "0.4"
anyhow = "1"
async-trait = "0.1"
serde = { version = "1", features = ["derive"] }
serde_json = "1"
rusqlite = { version = "*", features = ["bundled"] }
dirs = "*"
futures = "0.3"
