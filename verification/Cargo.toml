[package]
name = "space_build"
version = "0.1.0"
edition = "2021"
publish = false

[dependencies]
anyhow = "1"
bincode = "1"
crossterm = { version = "0.27", features = ["event-stream"] }
futures = "0.3"
futures-util = "0.3"
nalgebra = { version = "0.33", features = ["serde-serialize"] }
rand = "0.8"
redis = "0.25"
regex = "1"
rusqlite = { version = "0.31", features = ["bundled"] }
serde = { version = "1", features = ["derive"] }
serde_json = "1"
tokio = { version = "1", features = ["full"] }
tokio-tungstenite = "0.21"
tracing = "0.1"
tracing-subscriber = "0.3"
url = "2"
uuid = { version = "1", features = ["v4", "serde"] }
