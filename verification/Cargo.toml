[package]
name = "graph_todo"
version = "0.1.0"
edition = "2021"
publish = false

[dependencies]
derive_more = "=0.99.20"
reqwest = { version = "=0.11.27", default-features = false, features = ["blocking", "json", "rustls-tls"] }
serde = { version = "=1.0.229", features = ["derive"] }
serde_json = "=1.0.154"
