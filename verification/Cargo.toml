[package]
name = "transport-rest"
version = "0.1.0"
edition = "2021"
publish = false

[dependencies]
percent-encoding = "=2.3.2"
url = "=2.5.8"
chrono = { version = "=0.4.45", features = ["serde"] }
serde = { version = "=1.0.229", features = ["derive"] }
serde_json = "=1.0.154"
thiserror = "=1.0.69"
reqwest = { version = "=0.12.28", default-features = false, features = ["rustls-tls"] }
clap = { version = "=4.6.7", features = ["derive"] }
