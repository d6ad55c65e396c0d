[package]
name = "fuji"
version = "0.1.0"
edition = "2021"
publish = false

[dependencies]
log = "0.4"
serde = { version = "1", features = ["derive"] }
serde_json = "1"
snafu = "0.8"
winapi = { version = "0.3", features = ["winbase"] }
