[package]
name = "cockpit_instances"
version = "0.1.0"
edition = "2021"
publish = false

[dependencies]
serde = { version = "1", features = ["derive"] }
serde_json = "1"
chrono = "0.4"
uuid = { version = "1", features = ["v4"] }
rusqlite = { version = "*", features = ["bundled"] }
dirs = "*"
reqwest = { version = "0.12", default-features = false, features = ["json"] }
tokio = { version = "1", features = ["process", "io-util", "rt", "macros", "sync"] }
