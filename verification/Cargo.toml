[package]
name = "ota_provision"
version = "0.1.0"
edition = "2021"
publish = false

[dependencies]
anyhow = "=1.0.104"
embedded-svc = "=0.28.1"
esp-idf-hal = "=0.45.2"
esp-idf-svc = "=0.51.0"
esp-idf-sys = "=0.36.1"
esp-ota = "=0.2.2"
log = "=0.4.34"
semver = "=1.0.28"
serde_json = "=1.0.154"
