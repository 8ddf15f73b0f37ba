[package]
name = "nebula_prom_transformer"
version = "0.1.0"
edition = "2021"
publish = false

[dependencies]
serde = { version = "1", features = ["derive"] }
serde_json = "1"
clap = "4"
log = "0.4"
log4rs = "1"
reqwest = { version = "0.12", default-features = false, features = ["blocking"] }
rocket = "0.5"
