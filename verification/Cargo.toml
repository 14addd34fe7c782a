[package]
name = "rewrk"
version = "0.1.0"
edition = "2021"
publish = false

[dependencies]
anyhow = "*"
clap = "*"
http = "*"
hyper = { version = "*", features = ["client", "http1", "http2"] }
rustls = "*"
rustls-native-certs = "*"
tokio = { version = "*", features = ["rt-multi-thread", "net", "time", "macros", "io-util", "sync"] }
tokio-rustls = "*"
tower = { version = "*", features = ["util"] }
