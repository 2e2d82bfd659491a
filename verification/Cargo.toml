[package]
name = "infra_format"
version = "0.1.0"
edition = "2021"
publish = false

[dependencies]
chrono = "=0.4.45"
chardetng = "=0.1.17"
encoding_rs = "0.8"
walkdir = "=2.5.0"
rayon = "=1.12.0"
