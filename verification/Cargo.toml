[package]
name = "order_book"
version = "0.1.0"
edition = "2021"
publish = false

[dependencies]
serde = { version = "1", features = ["derive"] }
serde_json = "1"
tungstenite = { version = "0.17", features = ["native-tls"] }
url = "2"
