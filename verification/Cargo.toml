[package]
name = "crs_tui"
version = "0.1.0"
edition = "2021"
publish = false

[dependencies]
dotenv = "0.15.0"
matrix-sdk = { version = "=0.7.1", default-features = false, features = ["rustls-tls"] }
ratatui = "=0.29.0"
serde = { version = "1", features = ["derive"] }
serde_json = "1"
tokio = { version = "1", features = ["macros", "rt-multi-thread", "time"] }
