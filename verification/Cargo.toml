[package]
name = "build_cache"
version = "0.1.0"
edition = "2021"
publish = false

[dependencies]
futures = "0.3"
gotham = "*"
gotham_derive = "*"
hyper = "0.14"
serde = "1"
serde_derive = "1"
tokio = { version = "1", features = ["full"] }
