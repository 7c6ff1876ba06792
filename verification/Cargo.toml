[package]
name = "ipwhere"
version = "0.1.0"
edition = "2021"
publish = false

[dependencies]
anyhow = "*"
clap = { version = "*", features = ["cargo"] }
dns-lookup = "*"
geoip2 = "*"
serde = { version = "*", features = ["derive"] }
serde_json = "*"
