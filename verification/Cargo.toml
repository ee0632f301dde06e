[package]
name = "pg_elephantduck"
version = "0.1.0"
edition = "2021"
publish = false

[dependencies]
chrono = { version = "=0.4.45", default-features = false, features = ["std"] }
once_cell = "=1.21.4"
arrow = "60"
parquet = "60"
duckdb = "=1.20000.0"
pgrx = { version = "=0.12.9", features = ["pg17"] }
