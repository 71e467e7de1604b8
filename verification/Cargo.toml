[package]
name = "uc_webserver"
version = "0.1.0"
edition = "2021"
publish = false

[dependencies]
axum = "0.7"
serde = { version = "1", features = ["derive"] }
serde_json = "1.0.149"
utoipa = "4.2.3"
