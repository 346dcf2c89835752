[package]
name = "devbridge"
version = "0.1.0"
edition = "2021"
publish = false

[dependencies]
anyhow = "=1.0.104"
async-trait = "=0.1.92"
axum = "=0.7.9"
base64 = "=0.22.1"
bytes = "=1.12.1"
clap = { version = "=4.6.7", features = ["derive", "env"] }
clap_complete = "=4.6.11"
comfy-table = "=7.2.2"
dirs = "=5.0.1"
futures-util = "=0.3.34"
keyring = { version = "=3.6.3", features = ["linux-native"] }
open = "=5.4.5"
reqwest = { version = "=0.12.28", default-features = false, features = ["json", "rustls-tls"] }
russh = "=0.40.2"
russh-keys = "=0.40.1"
serde = { version = "=1.0.229", features = ["derive"] }
serde_json = "=1.0.154"
serde_yaml = "=0.9.34"
thiserror = "=1.0.69"
tokio = { version = "=1.54.1", features = ["full"] }
tokio-tungstenite = { version = "=0.26.2", features = ["rustls-tls-webpki-roots"] }
tracing = "=0.1.44"
tracing-subscriber = { version = "=0.3.23", features = ["env-filter"] }
url = "=2.5.8"
webbrowser = "=1.2.6"
