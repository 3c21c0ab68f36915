[package]
name = "hc_vault"
version = "0.1.0"
edition = "2021"
publish = false

[dependencies]
reqwest = { version = "=0.13.5", default-features = false, features = ["blocking"] }
url = "=2.5.8"
serde = "=1.0.229"
serde_json = "=1.0.151"

[dev-dependencies]
wiremock = "=0.6.5"
tokio = { version = "*", features = ["rt-multi-thread", "time"] }
