[package]
name = "rust_roller"
version = "0.1.0"
edition = "2021"
publish = false

[dependencies]
futures-util = "0.3"
hyper = { version = "0.14", features = ["full"] }
hyper-tls = "0.5"
serde = { version = "1", features = ["derive"] }
tokio = { version = "1", features = ["macros", "rt-multi-thread"] }
toml = "0.5"
