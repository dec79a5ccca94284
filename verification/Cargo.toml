[package]
name = "borealis"
version = "0.1.0"
edition = "2021"

[dependencies]
serde_json = "*"
serde = { version = "*", features = ["derive"] }
reqwest = { version = "*", default-features = false }
tokio = { version = "*", features = ["rt-multi-thread", "macros", "time"] }
mdns = "*"
futures-util = "*"
dirs = "*"
