[package]
name = "planar"
version = "0.1.0"
edition = "2021"
publish = false

[dependencies]
arrow = { version = "57", default-features = false, features = ["ipc"] }
arrow-array = { version = "57", default-features = false }
arrow-ipc = { version = "57", default-features = false }
async-trait = "0.1"
bytes = "1"
chrono = { version = "0.4", default-features = false, features = ["clock", "std"] }
futures = "0.3"
parquet = { version = "57", default-features = false, features = ["arrow", "async"] }
pyo3 = "0.20"
pyo3-asyncio = { version = "0.20", features = ["tokio-runtime"] }
serde_json = "1"
sqlx = { version = "0.8", default-features = false, features = ["runtime-tokio", "sqlite", "postgres", "chrono", "uuid", "json", "migrate", "macros"] }
thiserror = "2"
tokio = { version = "1", features = ["rt-multi-thread", "fs", "io-util", "sync", "macros"] }
uuid = { version = "1", features = ["v4"] }
uuid7 = "1"
