[package]
name = "jukebox"
version = "0.1.0"
edition = "2021"
publish = false

[dependencies]
serenity = { version = "0.10", default-features = false, features = ["builder", "cache", "client", "framework", "gateway", "http", "model", "standard_framework", "utils", "rustls_backend", "voice"] }
songbird = { version = "0.2", features = ["builtin-queue"] }
