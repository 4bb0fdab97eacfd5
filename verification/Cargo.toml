[package]
name = "flight_ingest"
version = "0.1.0"
edition = "2021"
publish = false

[dependencies]
arrow = "54"
arrow-flight = { version = "54", features = ["flight-sql-experimental"] }
datafusion = { version = "46", default-features = false, features = ["parquet"] }
dotenvy = "0.15"
futures = "0.3"
object_store = { version = "0.11", features = ["aws"] }
tokio = { version = "1", features = ["macros", "rt-multi-thread"] }
tonic = "0.12"
