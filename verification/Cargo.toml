[package]
name = "rustbuster"
version = "0.1.0"
edition = "2021"
publish = false

[dependencies]
anyhow = "*"
clap = { version = "*", features = ["derive"] }
owo-colors = "*"
reqwest = { version = "*", default-features = false, features = ["rustls-tls"] }
thiserror = "*"
tokio = { version = "*", features = ["full"] }
