[package]
name = "awasmlib"
version = "0.1.0"
edition = "2021"
publish = false

[dependencies]
wasmtime = { version = "=48.0.5", features = ["async", "component-model"] }
tokio = { version = "*", features = ["rt-multi-thread", "sync", "time"] }
anyhow = "*"
tracing = "*"
tracing-subscriber = { version = "*", features = ["fmt", "env-filter"] }
directories = "*"
sqlx = { version = "*", default-features = false, features = ["runtime-tokio", "sqlite", "any", "migrate"] }
