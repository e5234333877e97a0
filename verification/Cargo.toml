[package]
name = "proxy_core"
version = "0.1.0"
edition = "2021"
publish = false

[dependencies]
rustls = { version = "*", default-features = false, features = ["ring", "std", "tls12", "logging"] }
tokio-rustls = { version = "*", default-features = false, features = ["ring", "tls12", "logging"] }
rustls-pki-types = "*"
webpki-roots = "*"
tokio = { version = "*", features = ["rt-multi-thread", "net", "io-util", "time", "macros", "sync", "signal"] }
clap = { version = "*", features = ["derive"] }
tracing = "*"
tracing-subscriber = { version = "*", features = ["env-filter"] }
pin-project-lite = "*"
