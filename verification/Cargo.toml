[package]
name = "hpm"
version = "0.1.0"
edition = "2021"
publish = false

[dependencies]
clap = "2.34"
reqwest = { version = "0.12", default-features = false, features = ["blocking", "rustls-tls"] }
serde_json = "1"
zip = { version = "0.6", default-features = false, features = ["deflate"] }
