[package]
name = "user_profile_service"
version = "0.1.0"
edition = "2021"
publish = false

[dependencies]
uuid = { version = "=1.27.0", features = ["v1", "v4", "serde"] }
serde = { version = "=1.0.229", features = ["derive"] }
serde_json = "=1.0.151"
actix-web = { version = "=4.15.0", default-features = false, features = ["macros"] }
cdrs-tokio = "=9.0.2"
cdrs-tokio-helpers-derive = "=5.0.3"
