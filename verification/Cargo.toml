[package]
name = "wscrab"
version = "0.1.0"
edition = "2021"
publish = false

[dependencies]
clap = { version = "4", features = ["derive"] }
futures-util = "0.3"
http = "1"
rustls = "0.23"
rustls-pemfile = "2"
tokio = { version = "1", features = ["rt-multi-thread", "macros", "io-std", "io-util", "signal"] }
tokio-tungstenite = { version = "0.24", features = ["rustls-tls-webpki-roots"] }
webpki-roots = "0.26"
