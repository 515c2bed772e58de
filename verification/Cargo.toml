[package]
name = "bloggyblog"
version = "0.1.0"
edition = "2021"
publish = false

[dependencies]
uuid = { version = "=1.29.0", features = ["v4", "serde"] }
mime_guess = "=2.0.5"
config = { version = "=0.13.4", default-features = false }
serde = { version = "=1.0.229", features = ["derive"] }
serde_json = "=1.0.154"
tokio = { version = "=1.54.1", features = ["rt-multi-thread", "macros"] }
axum = "=0.6.20"
axum-extra = "=0.7.7"
cached = { version = "=0.44.0", features = ["async"] }
clap = { version = "=4.6.7", features = ["derive"] }
octocrab = "=0.31.2"
reqwest = "=0.11.27"
bytes = "=1.12.1"
image = "=0.24.9"
kamadak-exif = "=0.5.5"
libwebp-sys = "=0.9.6"
