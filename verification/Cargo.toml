[package]
name = "gateway"
version = "0.1.0"
edition = "2021"
publish = false

[dependencies]
uuid = { version = "1", features = ["v4"] }
chrono = "0.4"
qstring = "0.7"
tokio = { version = "1", features = ["rt-multi-thread", "macros", "net", "time", "signal", "sync"] }
tokio-tungstenite = "*"
amqprs = "*"
deadpool-redis = "*"
serde = { version = "1", features = ["derive"] }
bincode = { version = "2", features = ["serde"] }
rmp-serde = "1"
simd-json = "*"
futures-util = "0.3"
