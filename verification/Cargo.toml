[package]
name = "imap_sec"
version = "0.1.0"
edition = "2021"
publish = false

[dependencies]
argh = "=0.1.19"
imap-next = { version = "=0.3.4", features = ["expose_stream", "ext_id", "serde"] }
serde = { version = "=1.0.229", features = ["derive"] }
serde_json = "=1.0.151"
tokio = { version = "=1.53.2", features = ["io-util", "macros", "net", "rt"] }
tracing = "=0.1.44"
tracing-subscriber = { version = "=0.3.23", features = ["env-filter"] }
