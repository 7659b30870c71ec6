[package]
name = "stellavue"
version = "0.1.0"
edition = "2021"
publish = false

[dependencies]
embedded-hal = "1"
esp-idf-svc = "*"
log = "0.4"
serde = { version = "1", features = ["derive"] }
serde_json = "1"
