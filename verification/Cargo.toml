[package]
name = "raft_transport"
version = "0.1.0"
edition = "2021"
publish = false

[dependencies]
actix = "=0.8.3"
actix-cors = "=0.1.0"
actix-raft = "=0.4.4"
actix-server = "=0.6.1"
actix-web = "=1.0.9"
chrono = "=0.4.19"
futures = "=0.1.31"
reqwest = { version = "=0.12.28", default-features = false, features = ["blocking", "json"] }
serde = { version = "=1.0.229", features = ["derive"] }
serde_json = "=1.0.154"
tracing = "=0.1.44"

[dev-dependencies]
bytes = "=1.12.1"
http = "=1.5.0"
http-body = "=1.1.0"
