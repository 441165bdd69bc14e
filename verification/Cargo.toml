[package]
name = "craters"
version = "0.1.0"
edition = "2021"
publish = false

[dependencies]
ratatui = "0.29.0"
crossterm = "0.29.0"
crates_io_api = "*"
reqwest = { version = "0.12.24", default-features = false, features = ["blocking", "json", "rustls-tls"] }
serde = { version = "1.0.228", features = ["derive"] }
serde_json = "1"
thiserror = "2"
color-eyre = "0.6.5"
tokio = { version = "1", features = ["full"] }
