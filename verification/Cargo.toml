[package]
name = "trefm"
version = "0.1.0"
edition = "2021"
publish = false

[dependencies]
fuzzy-matcher = "=0.3.7"
sha2 = "=0.10.9"
unicode-normalization = "=0.1.26"
serde = { version = "=1.0.229", features = ["derive"] }
serde_json = "=1.0.154"
toml = "=0.8.23"
git2 = { version = "=0.20.4", default-features = false }
crossterm = "=0.28.1"
ratatui = "=0.29.0"
anyhow = "=1.0.104"
pulldown-cmark = { version = "0.12", default-features = false }
notify = "6"
notify-debouncer-mini = "0.4"
portable-pty = "0.8"
vt100 = "0.15"
syntect = { version = "5", default-features = false, features = ["default-fancy"] }
image = { version = "0.25", default-features = false, features = ["png", "jpeg", "gif", "bmp", "webp"] }
lopdf = "0.34"
ratatui-image = { version = "4", default-features = false, features = ["crossterm"] }
tokio = { version = "1", features = ["rt-multi-thread", "macros", "sync", "fs", "io-util", "time"] }
russh = "0.45"
russh-sftp = "2"
russh-keys = "0.45"
async-trait = "0.1"
tracing = "0.1"
tracing-subscriber = "0.3"
thiserror = "1"
