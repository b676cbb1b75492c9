[package]
name = "bunny_api"
version = "0.1.0"
edition = "2021"
publish = false

[dependencies]
bytes = "=1.12.1"
reqwest = { version = "=0.12.28", default-features = false, features = ["json"] }
serde = { version = "=1.0.229", features = ["derive"] }
thiserror = "=2.0.21"
url = { version = "=2.5.8", features = ["serde"] }

[dev-dependencies]
serde_json = "=1.0.154"
