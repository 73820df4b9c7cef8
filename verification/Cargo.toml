[package]
name = "ferris"
version = "0.1.0"
edition = "2021"
publish = false

[dependencies]
regex = "1"
anyhow = "1"
thiserror = "1"
tracing = "0.1"
tracing-subscriber = { version = "0.3", features = ["env-filter"] }
tokio = { version = "1", features = ["full"] }
clap = { version = "4", features = ["derive"] }
serde = { version = "1", features = ["derive"] }
serde_json = "1"
axum = "0.8"
tower-http = { version = "0.6", features = ["cors", "trace"] }
dialoguer = "0.11"
reqwest = { version = "0.12", default-features = false, features = ["json"] }
zip = { version = "2", default-features = false, features = ["deflate"] }
tar = "0.4"
flate2 = "1"
xz2 = "0.1"
tempfile = "3"
walkdir = "2"
once_cell = "1"
local-ip-address = "0.6"
