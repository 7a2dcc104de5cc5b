[package]
name = "scalar_desktop"
version = "0.1.0"
edition = "2021"
publish = false

[dependencies]
cookie_store = "=0.22.1"
reqwest = { version = "=0.12.28", default-features = false, features = ["cookies", "rustls-tls"] }
reqwest_cookie_store = "=0.9.0"
serde = { version = "=1.0.229", features = ["derive"] }
serde_json = "=1.0.154"

[dev-dependencies]
time = "=0.3.55"
tokio = { version = "=1.54.1", features = ["rt", "net", "time"] }
