[package]
name = "azalea"
version = "0.1.0"
edition = "2021"
publish = false

[dependencies]
bincode = { version = "2", features = ["serde"] }
bytes = "1"
dirs = "*"
iced_core = "*"
serde = { version = "1", features = ["derive"] }
tokio = { version = "1", features = ["io-util", "net", "process", "rt-multi-thread", "sync"] }
toml = "*"
