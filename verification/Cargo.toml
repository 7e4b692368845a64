[package]
name = "duckdb_polars"
version = "0.1.0"
edition = "2021"
publish = false

[dependencies]
arrow-array = "=37.0.0"
arrow-schema = "=37.0.0"
arrow2 = { version = "=0.17.1", default-features = false, features = ["arrow"] }
polars = { version = "=0.29.0", default-features = false, features = ["dtype-slim", "dtype-struct"] }
polars-core = { version = "=0.29.0", default-features = false }
duckdb = { version = "=1.20000.0", default-features = false }
clap = { version = "=4.6.7", features = ["derive"] }
tracing = "=0.1.44"
tracing-subscriber = "=0.3.23"
