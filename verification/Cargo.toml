[package]
name = "proto_installer"
version = "0.1.0"
edition = "2021"
publish = false

[dependencies]
system_env = "*"
reqwest = { version = "0.12", default-features = false, features = ["stream", "rustls-tls"] }
futures = "0.3"
starbase_archive = "*"
starbase_utils = "*"
