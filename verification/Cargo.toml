[package]
name = "mvdis_license_plate_query"
version = "0.1.0"
edition = "2021"
publish = false

[dependencies]
anyhow = "=1.0.104"
ddddocr = "=0.1.0"
reqwest = { version = "=0.12.28", default-features = false, features = ["rustls-tls", "cookies"] }
reqwest_cookie_store = "=0.8.2"
scraper = "=0.29.0"
strum = { version = "=0.26.3", features = ["derive"] }
tokio = { version = "=1.54.1", features = ["rt-multi-thread", "macros", "sync"] }
