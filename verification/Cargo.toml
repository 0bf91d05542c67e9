[package]
name = "ig_rs"
version = "0.1.0"
edition = "2021"
publish = false

[dependencies]
bytes = "1"
md5 = "0.7"
miniz_oxide = "0.7"
cookie = "0.16"
uuid = { version = "1", features = ["v4"] }
serde = { version = "1", features = ["derive"] }
serde_json = "1"
serde_qs = "0.12"
reqwest = { version = "0.11", default-features = false, features = ["cookies", "json", "rustls-tls"] }
tokio = { version = "1", features = ["full"] }
tokio-rustls = "0.23"
webpki-roots = "0.22"
thrift = "0.17"
async-trait = "0.1"
