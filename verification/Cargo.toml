[package]
name = "jwt_lookup"
version = "0.1.0"
edition = "2021"
publish = false

[dependencies]
axum = "*"
axum-server = "*"
tokio = { version = "*", features = ["rt-multi-thread", "macros", "net"] }
tokio-postgres = "*"
