[package]
name = "icelite"
version = "0.1.0"
edition = "2021"
publish = false

[dependencies]
str0m = { version = "=0.24.1", default-features = false, features = ["rust-crypto"] }
serde_json = "=1.0.151"
rouille = { version = "=3.6.2", default-features = false, features = ["rustls"] }
tracing = "=0.1.44"
tracing-subscriber = { version = "=0.3.23", features = ["env-filter"] }
