[package]
name = "tokio_async_await_test"
version = "0.1.0"
edition = "2021"
publish = false

[dependencies]
syn = { version = "=0.15.44", features = ["full", "extra-traits"] }

[dev-dependencies]
futures = { version = "=0.3.34", features = ["thread-pool"] }
quote = "=0.6.13"
