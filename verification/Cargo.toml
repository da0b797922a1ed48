[package]
name = "openlibrary_api"
version = "0.1.0"
edition = "2021"
publish = false

[dependencies]
isahc = { version = "=2.0.1", features = ["cookies"] }
serde = { version = "=1.0.229", features = ["derive"] }
serde_json = "=1.0.151"
thiserror = "=2.0.21"
