[package]
name = "rschat"
version = "0.1.0"
edition = "2021"
publish = false

[dependencies]
base64ct = { version = "1", features = ["alloc"] }
crossterm = "0.27"
mysql = { version = "*", default-features = false, features = ["minimal-rust"] }
rand = "0.8"
ratatui = "0.25"
serde_json = "1"
sha2 = "0.10"
tokio = { version = "1", features = ["full"] }
tokio-util = "0.7"
