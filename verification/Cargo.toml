[package]
name = "orchestrator"
version = "0.1.0"
edition = "2021"
publish = false

[dependencies]
rand = "*"
uuid = { version = "*", features = ["v4"] }
chrono = "*"
tokio = { version = "*", features = ["rt-multi-thread", "macros", "process", "io-util", "sync", "time"] }
serde = { version = "*", features = ["derive"] }
serde_json = "*"
toml = "*"
reqwest = { version = "*", default-features = false }
