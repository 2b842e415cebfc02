[package]
name = "sukkirisu"
version = "0.1.0"
edition = "2021"
publish = false

[dependencies]
scraper = "*"
regex = "1"
reqwest = { version = "*", default-features = false }
tokio = { version = "1", features = ["rt", "macros"] }
lambda_runtime = "*"
serde = { version = "1", features = ["derive"] }
serde_json = "1"
log = "0.4"
simple_logger = "*"
