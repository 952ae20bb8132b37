[package]
name = "atlas_rs"
version = "0.1.0"
edition = "2021"
publish = false

[dependencies]
maxminddb = "0.24"
actix-web = "4"
tokio = { version = "1", features = ["full"] }
reqwest = { version = "0.11", default-features = false, features = ["rustls-tls", "stream"] }
futures-util = "0.3"
serde = { version = "1", features = ["derive"] }
serde_json = "1"
utoipa = { version = "3", features = ["actix_extras"] }
