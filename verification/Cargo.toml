[package]
name = "lectio_scraper"
version = "0.1.0"
edition = "2021"
publish = false

[dependencies]
regex = "=1.13.1"
scraper = "=0.29.0"
select = "=0.6.1"
serde = { version = "=1.0.229", features = ["derive"] }
serde_json = "=1.0.154"
lazy_static = "=1.5.1"
reqwest = { version = "=0.12.28", features = ["blocking", "cookies"] }
chrono = "0.4"
