[package]
name = "ftnet"
version = "0.1.0"
edition = "2021"
publish = false

[dependencies]
data-encoding = "2"
iroh-base = { version = "=0.35.0", default-features = false, features = ["key"] }
eyre = "0.6"
keyring = "3"
directories = "6"
serde = { version = "1", features = ["derive"] }
serde_json = "1"
hyper = { version = "1", features = ["server", "client", "http1", "http2"] }
hyper-util = { version = "0.1", features = ["tokio", "server-auto", "http1", "http2"] }
http-body-util = "0.1"
tokio = { version = "1", features = ["full"] }
tokio-util = { version = "0.7", features = ["codec"] }
tracing = "0.1"
tracing-subscriber = "0.3"
clap = { version = "4", features = ["derive"] }
clap-verbosity-flag = "3"
colored = "3"
