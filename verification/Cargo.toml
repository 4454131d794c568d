[package]
name = "readstat_fetch"
version = "0.1.0"
edition = "2021"
publish = false

[dependencies]
anyhow = "*"
dirs = "*"
flate2 = "*"
pyo3 = "*"
reqwest = { version = "*", default-features = false, features = ["json"] }
serde = { version = "*", features = ["derive"] }
tar = "*"
tokio = { version = "*", features = ["rt-multi-thread"] }
zip = { version = "*", default-features = false, features = ["deflate"] }
