[package]
name = "sys_core"
version = "0.1.0"
edition = "2021"
publish = false

[dependencies]
async-trait = "*"
axum = "*"
chrono = { version = "*", features = ["serde"] }
clap = { version = "*", features = ["derive"] }
futures = "*"
jsonwebtoken = "*"
serde = { version = "*", features = ["derive"] }
serde_json = "*"
sqlx = { version = "*", features = ["sqlite", "runtime-tokio", "uuid", "chrono"] }
thiserror = "*"
tokio = { version = "*", features = ["rt-multi-thread", "macros", "signal", "time", "sync", "net"] }
toml = "*"
tower-http = { version = "*", features = ["fs", "cors"] }
tracing = "*"
tracing-subscriber = "*"
uuid = { version = "*", features = ["v7", "serde"] }
