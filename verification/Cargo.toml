[package]
name = "sigv4_interceptor"
version = "0.1.0"
edition = "2021"
publish = false

[dependencies]
chrono = "0.4"
futures = "0.3"
http = "0.2"
hyper = "0.13"
log = "0.4"
serde_json = "1"
tokio = "0.2"
