[package]
name = "wacksy"
version = "0.1.0"
edition = "2021"
publish = false

[dependencies]
chrono = "0.4"
httparse = "1"
url = "2"
sha2 = "0.10"
serde = { version = "1", features = ["derive"] }
serde_json = "1"
warc = "0.3"
rawzip = "*"
surt-rs = "*"
