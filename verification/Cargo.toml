[package]
name = "kagu"
version = "0.1.0"
edition = "2021"
publish = false

[dependencies]
quinn = { version = "=0.10.2", default-features = false, features = ["runtime-tokio"] }
ratatui = { version = "=0.24.0", default-features = false }
tokio = { version = "=1.54.1", features = ["rt", "sync"] }
