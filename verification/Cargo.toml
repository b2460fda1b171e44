[package]
name = "ruma_api"
version = "0.1.0"
edition = "2021"
publish = false

[dependencies]
bytes = "=1.12.1"
form_urlencoded = "=1.2.2"
http = "=0.2.12"
js_int = "=0.2.2"
percent-encoding = "=2.3.2"
serde = { version = "=1.0.229", features = ["derive"] }
serde_json = { version = "=1.0.154", features = ["raw_value"] }
