[package]
name = "node_identifier"
version = "0.1.0"
edition = "2021"
publish = false

[dependencies]
failure = "=0.1.8"
futures = "=0.3.34"
rusoto_core = { version = "=0.47.0", default-features = false, features = ["rustls"] }
rusoto_dynamodb = { version = "=0.47.0", default-features = false, features = ["rustls"] }
serde = { version = "=1.0.229", features = ["derive"] }
serde_dynamodb = "=0.9.0"
tokio = { version = "=1.54.1", features = ["rt", "net", "time"] }
