[package]
name = "loopback_auth"
version = "0.1.0"
edition = "2021"
publish = false

[dependencies]
oauth2 = { version = "4", default-features = false }
url = "2"
rand = "0.8"
tiny_http = "0.12"
open = "5"
serde = { version = "1", features = ["derive"] }
serde_json = "1"
eyre = "0.6"
reqwest = { version = "0.11", default-features = false, features = ["blocking"] }
