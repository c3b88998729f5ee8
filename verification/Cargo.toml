[package]
name = "gmt"
version = "0.1.0"
edition = "2021"
publish = false

[dependencies]
anchor-spl = { version = "0.31", default-features = false, features = ["token", "associated_token"] }
tokio = { version = "1", features = ["macros", "rt-multi-thread"] }
tracing-subscriber = { version = "0.3", features = ["env-filter"] }
