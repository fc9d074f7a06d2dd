[package]
name = "grm"
version = "0.1.0"
edition = "2021"
publish = false

[dependencies]
regex = "1"
serde = { version = "1", features = ["derive"] }
serde_json = "1"
toml = "0.5"
walkdir = "2"
directories = "5"
chrono = { version = "0.4", default-features = false, features = ["now", "alloc"] }
tokio = { version = "1", features = ["rt-multi-thread", "fs", "io-util", "process", "macros", "sync"] }
reqwest = { version = "0.12", default-features = false, features = ["json", "rustls-tls"] }
