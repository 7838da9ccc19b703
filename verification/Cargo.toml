[package]
name = "pink"
version = "0.1.0"
edition = "2021"
publish = false

[dependencies]
futures-util = "0.3"
mlua = { version = "0.8", features = ["luau", "async"] }
serde = { version = "1", features = ["derive"] }
simd-json = "*"
tokio = { version = "1", features = ["rt-multi-thread", "fs", "macros"] }
tracing = "0.1"
tracing-subscriber = "0.3"
twilight-gateway = "0.11"
twilight-http = "0.11"
twilight-model = "0.11"
