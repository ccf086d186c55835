[package]
name = "xeonvpn"
version = "0.1.0"
edition = "2021"
publish = false

[dependencies]
urlencoding = "2"
quinn = "0.10"
rustls = "0.21"
rcgen = "0.11"
reqwest = { version = "0.11", default-features = false, features = ["rustls-tls"] }
tokio = { version = "1", features = ["full"] }
tracing = "0.1"
tracing-subscriber = { version = "0.3", features = ["env-filter"] }
tun = { version = "0.6", features = ["async"] }
