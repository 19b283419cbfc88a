[package]
name = "vectors"
version = "0.1.0"
edition = "2021"
publish = false

[dependencies]
pdf-extract = "=0.12.1"
serde = { version = "=1.0.229", features = ["derive"] }
serde_json = "=1.0.151"
reqwest = { version = "=0.13.5", default-features = false, features = ["blocking", "json", "form"] }
thiserror = "=2.0.21"
