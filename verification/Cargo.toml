[package]
name = "hudsucker"
version = "0.1.0"
edition = "2021"
publish = false

[dependencies]
bstr = "1"
bytes = "1"
futures = "0.3"
http = "0.2"
hyper = { version = "0.14", features = ["client", "http1", "http2", "server", "tcp"] }
hyper-tungstenite = "0.11"
tokio = { version = "1", features = ["io-util", "net", "rt"] }
tokio-rustls = "0.24"
tokio-tungstenite = { version = "0.20", features = ["rustls-tls-webpki-roots"] }
tracing = "0.1"
