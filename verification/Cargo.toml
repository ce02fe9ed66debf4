[package]
name = "robert_webdriver"
version = "0.1.0"
edition = "2021"
publish = false

[dependencies]
serde = { version = "*", features = ["derive"] }
serde_json = "*"
sha2 = "*"
chrono = "*"
base64 = "*"
tokio = { version = "*", features = ["fs", "process", "io-util", "time", "rt-multi-thread", "macros"] }
futures = "*"
chromiumoxide = "*"
