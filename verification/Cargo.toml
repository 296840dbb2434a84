[package]
name = "sas_bridge"
version = "0.1.0"
edition = "2021"
publish = false

[dependencies]
polars = { version = "*", default-features = false, features = ["dtype-date", "dtype-datetime", "dtype-time"] }
polars-arrow = "*"
