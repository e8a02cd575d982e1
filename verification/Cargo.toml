[package]
name = "dolarhoy_core"
version = "0.1.0"
edition = "2021"
publish = false

[dependencies]
scraper = "*"
tokio = { version = "1", features = ["net", "io-util", "rt"] }
tokio-rustls = "0.24"
webpki-roots = "0.25"
unhtml = "0.8"
