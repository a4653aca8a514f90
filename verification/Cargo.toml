[package]
name = "axum-sqlx-tx"
version = "0.1.0"
edition = "2021"
publish = false

[dependencies]
axum-core = "0.5"
bytes = "1"
futures-core = "0.3"
http = "1"
http-body = "1"
parking_lot = { version = "0.12", features = ["arc_lock", "send_guard"] }
sqlx = { version = "0.8", default-features = false }
thiserror = "2"
tower-layer = "0.3"
tower-service = "0.3"
