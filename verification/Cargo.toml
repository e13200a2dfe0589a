[package]
name = "libcdp"
version = "0.1.0"
edition = "2021"
publish = false

[dependencies]
actix-web = "4"
chrono = { version = "0.4", features = ["serde"] }
config = "*"
futures = "0.3"
rand = "0.8"
reqwest = { version = "0.11", features = ["json"] }
rumqttc = "*"
rumqttd = "*"
serde = { version = "1", features = ["derive"] }
serde_json = "1"
tokio = { version = "1", features = ["full"] }
url = "2"
uuid = { version = "1", features = ["v4", "serde"] }
