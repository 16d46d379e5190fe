[package]
name = "unheard"
version = "0.1.0"
edition = "2021"
publish = false

[dependencies]
regex = "=1.13.1"
csv = "=1.4.0"
git2 = { version = "=0.21.0", default-features = false }
serde = { version = "=1.0.229", features = ["derive"] }
serde_json = "=1.0.154"
calamine = "=0.37.0"
lopdf = "=0.46.0"
log = "=0.4.34"
reqwest = { version = "=0.12.28", default-features = false, features = ["json", "stream", "rustls-tls"] }
tokio = { version = "=1.54.1", features = ["rt"] }
futures = "=0.3.34"
eventsource-stream = "=0.2.3"

[dev-dependencies]
tempfile = "3"
