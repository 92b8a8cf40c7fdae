[package]
name = "ome-metadata"
version = "0.1.0"
edition = "2021"
publish = false

[dependencies]
anyhow = "=1.0.104"
quick-xml = { version = "=0.42.0", features = ["serialize"] }
serde = { version = "=1.0.229", features = ["derive"] }
thiserror = "=2.0.21"
pyo3 = { version = "=0.30.1", features = ["anyhow"] }
