[package]
name = "gotham_service"
version = "0.1.0"
edition = "2021"
publish = false

[dependencies]
http = "=0.2.12"
hyper = { version = "=0.14.32", features = ["server"] }
futures = "=0.3.34"
log = "=0.4.34"
failure = "=0.1.8"
uuid = { version = "1", features = ["v4"] }
