[package]
name = "axum_guard_router"
version = "0.1.0"
edition = "2021"
publish = false

[dependencies]
axum = { version = "0.7", default-features = false }
futures = { version = "0.3" }
tower = { version = "0.5", features = ["util"] }
