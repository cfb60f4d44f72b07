[package]
name = "eero_client"
version = "0.1.0"
edition = "2021"
publish = false

[dependencies]
clap = { version = "=4.6.7", features = ["derive"] }
log = "=0.4.34"
reqwest = { version = "=0.11.27", features = ["blocking", "cookies", "json"] }
secrecy = "=0.8.0"
serde_json = "=1.0.154"
tokio = { version = "=1.54.1", features = ["rt"] }
