[package]
name = "apub_core"
version = "0.1.0"
edition = "2021"
publish = false

[dependencies]
url = "=2.5.8"
serde = { version = "=1.0.229", features = ["derive"] }
serde_json = "=1.0.151"
chrono = "=0.4.45"
activitystreams = "=0.7.0-alpha.25"
time = "=0.3.55"
iri-string = "=0.7.14"
