[package]
name = "bencher"
version = "0.1.0"
edition = "2021"
publish = false

[dependencies]
uuid = { version = "=1.29.0", features = ["v4", "serde"] }
chrono = { version = "=0.4.45", default-features = false, features = ["clock", "std"] }
slug = "0.1"
serde = { version = "=1.0.229", features = ["derive"] }
thiserror = "=1.0.69"
derive_more = "=0.99.20"
dropshot = "=0.9.0"
slog = "=2.8.2"
tracing = "=0.1.44"
