[package]
name = "backend"
version = "0.1.0"
edition = "2021"
publish = false

[dependencies]
async-trait = "=0.1.92"
axum = "=0.8.9"
chrono = "=0.4.45"
loco-rs = { version = "=0.16.4", default-features = false }
rust_decimal = "=1.43.0"
schemars = "=1.2.3"
serde = { version = "=1.0.229", features = ["derive"] }
tokio = { version = "=1.54.1", features = ["rt", "macros", "time"] }
tracing = "=0.1.44"
