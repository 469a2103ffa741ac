[package]
name = "exiftool-rs-wrapper"
version = "0.1.5"
edition = "2021"
publish = false

[dependencies]
serde = { version = "=1.0.229", features = ["derive"] }
serde_json = "=1.0.154"
thiserror = "=2.0.21"
clap = { version = "=4.6.7", features = ["derive"] }
tempfile = "=3.27.0"
lru = "=0.19.0"
tokio = { version = "1", features = ["rt-multi-thread", "sync", "time"] }
futures = "0.3"
async-trait = "0.1"
