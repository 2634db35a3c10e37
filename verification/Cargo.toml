[package]
name = "weather_search"
version = "0.1.0"
edition = "2021"
publish = false

[dependencies]
urlencoding = "*"
crossterm = "*"
ratatui = "*"
reqwest = { version = "*", default-features = false, features = ["json", "rustls-tls"] }
serde = { version = "*", features = ["derive"] }
serde_json = "*"
tokio = { version = "*", features = ["macros", "rt-multi-thread", "sync", "time"] }
dirs = "*"
