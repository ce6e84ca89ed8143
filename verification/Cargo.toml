[package]
name = "anemometer"
version = "0.1.0"
edition = "2021"
publish = false

[dependencies]
heapless = "*"
rusty-s3 = "*"
url = "*"
serde = { version = "*", features = ["derive"] }
serde_json = "*"
