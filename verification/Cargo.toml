[package]
name = "protobench"
version = "0.1.0"
edition = "2021"
publish = false

[dependencies]
anyhow = "1"
bytes = "1"
clap = { version = "4", features = ["derive"] }
futures = "0.3"
h3 = "0.0.8"
h3-quinn = "0.0.10"
http = "1"
http-body-util = "0.1"
hyper = { version = "1", features = ["client", "server", "http2"] }
hyper-util = { version = "0.1", features = ["tokio"] }
indicatif = "0.18"
prost = "0.14"
quinn = "0.11"
rcgen = "0.14"
rustls = { version = "0.23", default-features = false, features = ["ring", "std", "tls12", "logging"] }
tokio = { version = "1", features = ["full"] }
tokio-rustls = { version = "0.26", default-features = false, features = ["ring", "tls12", "logging"] }
tokio-stream = "0.1"
tonic = { version = "0.14", features = ["tls-ring"] }
tonic-prost = "0.14"
tower = { version = "0.5", features = ["util"] }
