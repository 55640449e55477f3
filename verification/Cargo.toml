[package]
name = "logicaldecoding"
version = "0.1.0"
edition = "2021"
publish = false

[dependencies]
anyhow = "1"
bytes = "1"
futures = "0.3"
sqlx = { version = "0.7", default-features = false, features = ["postgres", "runtime-tokio", "uuid", "migrate"] }
tokio = { version = "1", features = ["macros", "rt-multi-thread", "sync", "time"] }
tokio-postgres = "0.7"
tracing = "0.1"
tracing-subscriber = { version = "0.3", features = ["env-filter"] }
uuid = "1"

[dev-dependencies]
prost = "0.12"
