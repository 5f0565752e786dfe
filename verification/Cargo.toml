[package]
name = "smart_house"
version = "0.1.0"
edition = "2021"
publish = false

[dependencies]
rql = "=0.5.2"
rmp = "=0.8.9"
serde = { version = "=1.0.229", features = ["derive"] }
thiserror = "=1.0.69"
actix-web = "=4.18.1"
