[package]
name = "waywire"
version = "0.1.0"
edition = "2021"
publish = false

[dependencies]
anyhow = "=1.0.104"
axum = { version = "=0.8.9", features = ["ws"] }
base64 = "=0.22.1"
clap = { version = "=4.6.7", features = ["derive", "env"] }
futures-util = "=0.3.34"
nix = { version = "=0.31.3", features = ["fs", "process", "signal", "time"] }
png = "=0.18.1"
rust-embed = "=8.13.0"
serde = { version = "=1.0.229", features = ["derive"] }
serde_json = "=1.0.154"
socket2 = "=0.6.5"
thiserror = "=2.0.21"
tokio = { version = "=1.54.1", features = ["full"] }
tokio-util = { version = "=0.7.20", features = ["rt"] }
tracing = "=0.1.44"
tracing-subscriber = { version = "=0.3.23", features = ["env-filter"] }
url = "=2.5.8"

[dev-dependencies]
tempfile = "=3.27.0"
