[package]
name = "server_monitor"
version = "0.1.0"
edition = "2021"
publish = false

[dependencies]
async-timer = "0.7"
dotenv = "0.15"
futures = "0.3"
lettre = { version = "0.11", features = ["tokio1", "tokio1-native-tls"] }
reqwest = "0.12"
serde = { version = "1", features = ["derive"] }
serde_json = "1"
tokio = { version = "1", features = ["macros", "rt-multi-thread"] }
