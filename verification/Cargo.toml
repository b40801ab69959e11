[package]
name = "gami"
version = "0.1.0"
edition = "2021"
publish = false

[dependencies]
bitcode = "0.6"
chrono = "0.4"
dirs = "5"
env_logger = "0.11"
html5gum = "*"
libloading = "0.8"
log = "0.4"
once_cell = "1"
regex = "1"
reqwest = { version = "0.12", default-features = false, features = ["rustls-tls"] }
safer-ffi = "0.1"
sea-orm = { version = "1", default-features = false, features = ["sqlx-sqlite", "runtime-tokio-rustls", "macros", "with-chrono"] }
serde = { version = "1", features = ["derive"] }
serde_json = "1"
tokio = { version = "1", features = ["rt-multi-thread", "macros", "fs", "sync", "time"] }
tokio-stream = "0.1"
url = "2"
urlencoding = "2"
