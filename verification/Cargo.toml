[package]
name = "time_datum"
version = "0.1.0"
edition = "2021"
publish = false

[dependencies]
serde = "1"
time = "0.2"
