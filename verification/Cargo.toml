[package]
name = "rust_playground"
version = "0.1.0"
edition = "2021"
publish = false

[dependencies]
datafusion = "=11.0.0"
tokio = { version = "=1.54.1", features = ["macros", "rt-multi-thread"] }
chrono = { version = "=0.4.31", default-features = false }
