[package]
name = "egrul_parser"
version = "0.1.0"
edition = "2021"
publish = false

[dependencies]
arrow = { version = "*", default-features = false }
chrono = { version = "0.4", features = ["serde"] }
clap = { version = "4", features = ["derive"] }
console = "*"
crossbeam-channel = "0.5"
dirs = "*"
dotenvy = "0.15"
encoding_rs = "0.8"
indicatif = "*"
memmap2 = "*"
parquet = { version = "*", default-features = false, features = ["arrow", "snap"] }
quick-xml = "*"
rayon = "1"
serde = { version = "1", features = ["derive"] }
serde_json = "1"
thiserror = "*"
toml = "*"
tracing = "0.1"
tracing-subscriber = { version = "0.3", features = ["env-filter"] }
walkdir = "2"
