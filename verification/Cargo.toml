[package]
name = "tesla_metrics"
version = "0.1.0"
edition = "2021"
publish = false

[dependencies]
anyhow = "1"
dotenv = "0.15"
log = "0.4"
log4rs = "1"
once_cell = "1"
rocket = "0.5"
rocket_prometheus = "0.10"
serde = { version = "1", features = ["derive"] }
serde_json = "1"
thiserror = "1"
ureq = { version = "2", features = ["json"] }
