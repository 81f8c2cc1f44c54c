[package]
name = "rileyviewer"
version = "0.1.0"
edition = "2021"
publish = false

[dependencies]
anyhow = "1"
axum = { version = "0.7", features = ["ws"] }
base64 = "0.22"
clap = { version = "4", features = ["derive"] }
dirs = "5"
mime_guess = "2"
nix = { version = "0.29", features = ["signal"] }
once_cell = "1"
pyo3 = "0.22"
rust-embed = "8"
serde = { version = "1", features = ["derive"] }
serde_json = "1"
time = "0.3"
tokio = { version = "1", features = ["full"] }
toml = "0.8"
tower-http = { version = "0.5", features = ["fs"] }
tracing = "0.1"
ureq = { version = "2", default-features = false }
uuid = { version = "1", features = ["v4"] }
webbrowser = "1"
