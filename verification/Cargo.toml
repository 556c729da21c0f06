[package]
name = "signal_bridge"
version = "0.1.0"
edition = "2021"
publish = false

[dependencies]
base64 = "0.22"
clap = { version = "4", features = ["derive"] }
color-eyre = "0.6"
futures-util = { version = "0.3", features = ["sink"] }
jsonrpsee = { version = "*", features = ["async-client", "macros"] }
poem = "*"
poem-openapi = { version = "*", features = ["swagger-ui"] }
reqwest = { version = "0.12", default-features = false, features = ["json", "rustls-tls"] }
serde = { version = "1", features = ["derive"] }
serde_json = "1"
tokio = { version = "1", features = ["rt-multi-thread", "net"] }
tokio-util = { version = "0.7", features = ["codec"] }
tracing = "0.1"
tracing-subscriber = "0.3"
